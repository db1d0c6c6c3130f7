//! The root child process: its identity, its status, and its termination.

use vstd::prelude::*;

use crate::diagnostics::{LogLevel, LogRecord};
use crate::error::{Error, ErrorContext, Result};
use crate::io_error::IoError;
use crate::session::{RootChild, KILL_EXIT_CODE};
use crate::status::ExitStatus;

verus! {

/// A root child process of a session.
///
/// Its status is remembered once it is known; until then the operating system
/// is asked through the operations that each method takes.
#[derive(Debug)]
pub struct Child {
    pid: u32,
    kill_on_drop: bool,
    status: Option<ExitStatus>,
}

impl Child {
    /// The process identifier.
    pub closed spec fn spec_pid(&self) -> u32 {
        self.pid
    }

    /// Whether dropping the child terminates its tree.
    pub closed spec fn spec_kill_on_drop(&self) -> bool {
        self.kill_on_drop
    }

    /// The status, once known.
    pub closed spec fn spec_status(&self) -> Option<ExitStatus> {
        self.status
    }

    /// Whether `self` is `before` with its status set to `status`.
    pub open spec fn with_status(&self, before: &Child, status: Option<ExitStatus>) -> bool {
        &&& self.spec_pid() == before.spec_pid()
        &&& self.spec_kill_on_drop() == before.spec_kill_on_drop()
        &&& self.spec_status() == status
    }

    /// Takes a freshly spawned root child, whose status is not known.
    pub fn from_root(root: RootChild) -> (child: Child)
        ensures
            child.spec_pid() == root.pid,
            child.spec_kill_on_drop() == root.kill_on_drop,
            child.spec_status() == None::<ExitStatus>,
    {
        Child { pid: root.pid, kill_on_drop: root.kill_on_drop, status: None }
    }

    /// Returns the process identifier.
    pub fn id(&self) -> (pid: u32)
        ensures
            pid == self.spec_pid(),
    {
        self.pid
    }

    /// Returns the status if it is known.
    pub fn status(&self) -> (status: Option<ExitStatus>)
        ensures
            status == self.spec_status(),
    {
        self.status
    }

    /// Returns the exit status, waiting for it with `wait` unless it is known.
    ///
    /// # Errors
    ///
    /// A wait error if and only if the status is not known and `wait` fails;
    /// the status then stays unknown.
    pub fn wait<F: FnOnce() -> core::result::Result<u32, IoError>>(&mut self, wait: F) -> (status:
        Result<ExitStatus>)
        requires
            old(self).spec_status() is None ==> wait.requires(()),
        ensures
            old(self).spec_status() is Some ==> {
                &&& status == Ok::<ExitStatus, Error>(old(self).spec_status()->0)
                &&& final(self).with_status(old(self), old(self).spec_status())
            },
            old(self).spec_status() is None ==> exists|waited|
                {
                    &&& #[trigger] wait.ensures((), waited)
                    &&& status is Ok <==> waited is Ok
                    &&& waited is Ok ==> {
                        &&& status->Ok_0.spec_code() == waited->Ok_0
                        &&& final(self).with_status(old(self), Some(status->Ok_0))
                    }
                    &&& waited is Err ==> {
                        &&& status->Err_0@ == ErrorContext::Wait(waited->Err_0)
                        &&& final(self).with_status(old(self), None)
                    }
                },
    {
        if let Some(status) = self.status {
            return Ok(status);
        }
        match wait() {
            Ok(code) => Ok(self.cache_exit_code(code)),
            Err(source) => Err(Error::wait(source)),
        }
    }

    /// Returns the exit status if the child has exited, asking `poll` unless the
    /// status is known.
    ///
    /// # Errors
    ///
    /// A wait error if and only if the status is not known and `poll` fails;
    /// the status then stays unknown.
    pub fn try_wait<F: FnOnce() -> core::result::Result<Option<u32>, IoError>>(
        &mut self,
        poll: F,
    ) -> (status: Result<Option<ExitStatus>>)
        requires
            old(self).spec_status() is None ==> poll.requires(()),
        ensures
            old(self).spec_status() is Some ==> {
                &&& status == Ok::<Option<ExitStatus>, Error>(old(self).spec_status())
                &&& final(self).with_status(old(self), old(self).spec_status())
            },
            old(self).spec_status() is None ==> exists|polled|
                {
                    &&& #[trigger] poll.ensures((), polled)
                    &&& status is Ok <==> polled is Ok
                    &&& polled is Ok ==> {
                        &&& status->Ok_0 is Some <==> polled->Ok_0 is Some
                        &&& polled->Ok_0 is Some ==> status->Ok_0->0.spec_code()
                            == polled->Ok_0->0
                        &&& final(self).with_status(old(self), status->Ok_0)
                    }
                    &&& polled is Err ==> {
                        &&& status->Err_0@ == ErrorContext::Wait(polled->Err_0)
                        &&& final(self).with_status(old(self), None)
                    }
                },
    {
        if let Some(status) = self.status {
            return Ok(Some(status));
        }
        match poll() {
            Ok(Some(code)) => Ok(Some(self.cache_exit_code(code))),
            Ok(None) => Ok(None),
            Err(source) => Err(Error::wait(source)),
        }
    }

    /// Remembers an exit code that was read after the child exited.
    pub fn cache_exit_code(&mut self, code: u32) -> (status: ExitStatus)
        ensures
            status.spec_code() == code,
            final(self).with_status(old(self), Some(status)),
    {
        let status = ExitStatus::from_raw(code);
        self.status = Some(status);
        status
    }

    /// Terminates the child and its whole tree with `terminate`, which is given
    /// [`KILL_EXIT_CODE`].
    ///
    /// # Errors
    ///
    /// A kill error if and only if `terminate` fails.
    pub fn kill<F: FnOnce(u32) -> core::result::Result<(), IoError>>(&self, terminate: F) -> (killed:
        Result<()>)
        requires
            terminate.requires((KILL_EXIT_CODE,)),
        ensures
            exists|terminated|
                {
                    &&& #[trigger] terminate.ensures((KILL_EXIT_CODE,), terminated)
                    &&& killed is Ok <==> terminated is Ok
                    &&& terminated is Err ==> killed->Err_0@ == ErrorContext::Kill(
                        terminated->Err_0,
                    )
                },
    {
        match terminate(KILL_EXIT_CODE) {
            Ok(()) => Ok(()),
            Err(source) => Err(Error::kill(source)),
        }
    }

    /// Returns the exit code to terminate the tree with when the child is
    /// dropped, if it is to be terminated.
    pub fn kill_on_drop_code(&self) -> (code: Option<u32>)
        ensures
            code == (if self.spec_kill_on_drop() {
                Some(KILL_EXIT_CODE)
            } else {
                None
            }),
    {
        if self.kill_on_drop {
            Some(KILL_EXIT_CODE)
        } else {
            None
        }
    }
}

/// Reported when the tree cannot be terminated while the child is dropped.
pub const DROP_KILL_FAILED: &'static str = "failed to terminate the child job during drop";

/// Returns the report of a failed termination during drop.
pub fn log_drop_kill_failure(err: &IoError) -> (record: LogRecord)
    ensures
        record.says(LogLevel::Error, DROP_KILL_FAILED, seq![("error"@, err.message@)]),
        record.message@ == "failed to terminate the child job during drop"@,
{
    let record = LogRecord::new(LogLevel::Error, DROP_KILL_FAILED).with("error", err.message.as_str());
    assert(record.spec_fields() =~= seq![("error"@, err.message@)]);
    record
}

/// A child that learns its status stays the same child.
pub proof fn children_keep_who_they_are(
    after: &Child,
    before: &Child,
    status: Option<ExitStatus>,
)
    requires
        after.with_status(before, status),
    ensures
        after.spec_pid() == before.spec_pid(),
        after.spec_kill_on_drop() == before.spec_kill_on_drop(),
        after.spec_status() == status,
{
}

} // verus!
