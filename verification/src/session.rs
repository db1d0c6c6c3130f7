//! The half of a session that does not depend on how bytes are moved.
//!
//! # The spawn order
//!
//! A root child is spawned in three steps, in this order and no other:
//!
//! 1. Create the job object and the process.
//! 2. Release the pseudoconsole, immediately afterwards. This is what makes the
//!    output pipe reach end-of-file naturally.
//! 3. Register a wait on the root for every backend. When the root exits, what
//!    remains of its tree is terminated; in legacy mode the pseudoconsole is
//!    closed as well, so that output reaches end-of-file.
//!
//! Each step hands out the value that the next one consumes, so the order is
//! kept by construction: [`ReservedRoot`], [`CreatedRoot`], [`ReleasedRoot`],
//! and at last [`RootChild`].

use vstd::prelude::*;

use crate::backend::BackendKind;
use crate::diagnostics::{appended, report, LogLevel, LogRecord};
use crate::error::{Error, ErrorContext, Result};
use crate::io_error::{IoError, IoErrorKind};
use crate::pseudocon::{
    says_closed, session_end, CloseAction, CloseState, ConsoleShared, DetachedStep, ReaderState,
    State,
};
use crate::size::Size;
use crate::wide::WideString;

verus! {

/// Exit code used when terminating a managed process tree.
pub const KILL_EXIT_CODE: u32 = 1;

/// Capability name reported when the backend cannot clear the pseudoconsole.
pub const CLEAR_FEATURE: &'static str = "ClearPseudoConsole";

/// The console side of one session: everything except the pipe ends.
#[derive(Debug)]
pub struct ConsoleSession {
    console: ConsoleShared,
    eof_on_root_exit: bool,
    spawned: bool,
    attached: bool,
}

/// What a [`ConsoleSession`] is, its console seen as a lifecycle state.
pub struct SessionView {
    /// The lifecycle state of the console.
    pub console: State,
    /// Whether a legacy console is closed when the root exits.
    pub eof_on_root_exit: bool,
    /// Whether a root child has been reserved.
    pub spawned: bool,
    /// Whether a root child was created on the console.
    pub attached: bool,
}

impl SessionView {
    /// After the session was reserved for a root child.
    pub open spec fn after_reservation(self) -> SessionView {
        SessionView { spawned: true, ..self }
    }

    /// After a creation: a child that exists is attached, and an attempt that
    /// failed frees the session for another one.
    pub open spec fn after_creation(self, succeeded: bool) -> SessionView {
        if succeeded {
            SessionView { attached: true, ..self }
        } else {
            SessionView { spawned: false, ..self }
        }
    }
}

impl View for ConsoleSession {
    type V = SessionView;

    closed spec fn view(&self) -> SessionView {
        SessionView {
            console: self.console@,
            eof_on_root_exit: self.eof_on_root_exit,
            spawned: self.spawned,
            attached: self.attached,
        }
    }
}

impl ConsoleSession {
    /// The console of the session.
    pub closed spec fn spec_console(&self) -> ConsoleShared {
        self.console
    }

    /// Whether `self` is the session `before` that moved to `view`.
    pub open spec fn moved(&self, before: &ConsoleSession, view: SessionView) -> bool {
        self@ == view && self.spec_console().same_console(&before.spec_console())
    }

    /// Wraps a freshly created pseudoconsole together with the settings that
    /// the session was built with.
    pub fn new(console: ConsoleShared, eof_on_root_exit: bool) -> (session: ConsoleSession)
        ensures
            session.spec_console() == console,
            session@ == (SessionView {
                console: console@,
                eof_on_root_exit,
                spawned: false,
                attached: false,
            }),
    {
        ConsoleSession { console, eof_on_root_exit, spawned: false, attached: false }
    }

    /// Returns the console.
    pub fn console(&self) -> (console: &ConsoleShared)
        ensures
            *console == self.spec_console(),
            console@ == self@.console,
    {
        &self.console
    }

    /// Returns the console for a lifecycle event.
    pub fn console_mut(&mut self) -> (console: &mut ConsoleShared)
        ensures
            *console == old(self).spec_console(),
            console@ == old(self)@.console,
            final(self).spec_console() == *final(console),
            final(self)@ == (SessionView { console: final(console)@, ..old(self)@ }),
    {
        &mut self.console
    }

    /// Returns the size last accepted by the console.
    pub fn size(&self) -> (size: Size)
        ensures
            size == self@.console.size,
    {
        self.console.size()
    }

    /// Resizes the pseudoconsole with `resize`, which calls `ResizePseudoConsole`
    /// on the handle and with the size that it is given, and records the new size.
    ///
    /// # Errors
    ///
    /// A resize error of kind `NotConnected` if and only if the console is closed,
    /// without a call; and else a resize error if and only if the call failed. The
    /// recorded size is then unchanged.
    pub fn resize<F: FnOnce(isize, Size) -> core::result::Result<(), IoError>>(
        &mut self,
        size: Size,
        resize: F,
    ) -> (resized: Result<()>)
        requires
            old(self)@.console.close != CloseState::Done ==> resize.requires(
                (old(self).spec_console().spec_hpcon(), size),
            ),
        ensures
            old(self)@.console.close == CloseState::Done ==> {
                &&& final(self).moved(old(self), old(self)@)
                &&& resized is Err
                &&& resized->Err_0@ is Resize
                &&& says_closed(resized->Err_0@->Resize_0)
            },
            old(self)@.console.close != CloseState::Done ==> exists|outcome|
                {
                    &&& #[trigger] resize.ensures(
                        (old(self).spec_console().spec_hpcon(), size),
                        outcome,
                    )
                    &&& resized is Ok <==> outcome is Ok
                    &&& outcome is Ok ==> final(self).moved(
                        old(self),
                        SessionView { console: State { size, ..old(self)@.console }, ..old(self)@ },
                    )
                    &&& outcome is Err ==> {
                        &&& final(self).moved(old(self), old(self)@)
                        &&& resized->Err_0@ is Resize
                        &&& session_end(outcome->Err_0, resized->Err_0@->Resize_0)
                    }
                },
    {
        match self.console.resize(size, resize) {
            Ok(()) => Ok(()),
            Err(source) => Err(Error::resize(source)),
        }
    }

    /// Clears the pseudoconsole's screen and scrollback with `clear`, which calls
    /// `ClearPseudoConsole` on the handle that it is given. A missing capability
    /// is reported as such before anything else.
    ///
    /// # Errors
    ///
    /// An unsupported-feature error if and only if the backend lacks the export;
    /// else a clear error of kind `NotConnected` if and only if the console is
    /// closed, both without a call; and else a clear error if and only if the call
    /// failed.
    pub fn clear<F: FnOnce(isize) -> core::result::Result<(), IoError>>(&self, clear: F) -> (cleared:
        Result<()>)
        requires
            clear_possible(self) ==> clear.requires((self.spec_console().spec_hpcon(),)),
        ensures
            !self.spec_console().spec_backend().spec_supports_clear() ==> {
                &&& cleared is Err
                &&& cleared->Err_0@ == (ErrorContext::UnsupportedFeature {
                    feature: CLEAR_FEATURE,
                })
            },
            (self.spec_console().spec_backend().spec_supports_clear() && self@.console.close
                == CloseState::Done) ==> {
                &&& cleared is Err
                &&& cleared->Err_0@ is Clear
                &&& says_closed(cleared->Err_0@->Clear_0)
            },
            clear_possible(self) ==> exists|outcome|
                {
                    &&& #[trigger] clear.ensures((self.spec_console().spec_hpcon(),), outcome)
                    &&& cleared is Ok <==> outcome is Ok
                    &&& outcome is Err ==> {
                        &&& cleared->Err_0@ is Clear
                        &&& session_end(outcome->Err_0, cleared->Err_0@->Clear_0)
                    }
                },
    {
        if !self.console.backend().supports_clear() {
            return Err(Error::unsupported_feature(CLEAR_FEATURE));
        }
        match self.console.clear(clear) {
            Ok(()) => Ok(()),
            Err(source) => Err(Error::clear(source)),
        }
    }

    /// Returns whether the backend can clear the pseudoconsole.
    pub fn supports_clear(&self) -> (supported: bool)
        ensures
            supported == self.spec_console().spec_backend().spec_supports_clear(),
    {
        self.console.backend().supports_clear()
    }

    /// Returns whether the backend exports `ReleasePseudoConsole`.
    pub fn supports_release(&self) -> (supported: bool)
        ensures
            supported == self.spec_console().spec_backend().spec_supports_release(),
    {
        self.console.backend().supports_release()
    }

    /// Returns whether the reader has retired or observed end-of-file.
    pub fn reader_finished(&self) -> (finished: bool)
        ensures
            finished == (self@.console.reader != ReaderState::Open),
    {
        self.console.reader_finished()
    }

    /// Returns which `ConPTY` implementation backs this session.
    pub fn backend_kind(&self) -> (kind: &BackendKind)
        ensures
            *kind == self.spec_console().spec_backend().spec_kind(),
    {
        self.console.backend().kind()
    }

    /// Ends a spawned session after its input pipe has been closed.
    ///
    /// Closing the input alone does not reliably disconnect console clients, so
    /// the pseudoconsole is closed too; but an idle session, without a child,
    /// stays usable when its writer goes away.
    pub fn request_close_after_input(&mut self) -> (step: Option<DetachedStep>)
        ensures
            step is Some <==> old(self)@.attached,
            !old(self)@.attached ==> final(self).moved(old(self), old(self)@),
            old(self)@.attached && !old(self)@.console.released ==> {
                &&& final(self).moved(old(self), old(self)@)
                &&& step == Some(DetachedStep::StartWorker)
            },
            old(self)@.attached && old(self)@.console.released ==> {
                let after = old(self)@.console.after_close_request();
                &&& final(self).moved(old(self), SessionView { console: after, ..old(self)@ })
                &&& step == Some(
                    DetachedStep::Requested(
                        if old(self)@.console.claims_close(after) {
                            CloseAction::Close
                        } else {
                            CloseAction::Nothing
                        },
                    ),
                )
            },
    {
        if self.attached {
            Some(self.console.request_close_detached())
        } else {
            None
        }
    }

    /// Reserves the session for a root child.
    ///
    /// One session hosts one root child: on a legacy backend the console is
    /// closed after the first child exits, and a second one would be handed a
    /// freed handle.
    ///
    /// # Errors
    ///
    /// A spawn error of kind `AlreadyExists` if and only if the session was
    /// reserved before.
    pub fn spawn_root(&mut self, program: WideString, kill_on_drop: bool) -> (reserved: Result<
        ReservedRoot,
    >)
        ensures
            reserved is Err <==> old(self)@.spawned,
            reserved is Ok ==> {
                &&& final(self).moved(old(self), old(self)@.after_reservation())
                &&& reserved->Ok_0.spec_program() == program
                &&& reserved->Ok_0.spec_kill_on_drop() == kill_on_drop
                &&& reserved->Ok_0.spec_hpcon() == old(self).spec_console().spec_hpcon()
            },
            reserved is Err ==> {
                &&& final(self).moved(old(self), old(self)@)
                &&& already_hosts(reserved->Err_0, program)
            },
    {
        if self.spawned {
            return Err(
                Error::spawn(
                    program,
                    IoError::new(
                        IoErrorKind::AlreadyExists,
                        "this pseudoconsole already hosts a root child process",
                    ),
                ),
            );
        }
        self.spawned = true;
        Ok(ReservedRoot { program, kill_on_drop, hpcon: self.console.hpcon() })
    }

    /// Reserves a managed session for its root child, which never outlives its
    /// owner: dropping the child terminates its whole tree.
    ///
    /// # Errors
    ///
    /// As for [`Self::spawn_root`].
    pub fn spawn_managed_root(&mut self, program: WideString) -> (reserved: Result<ReservedRoot>)
        ensures
            reserved is Err <==> old(self)@.spawned,
            reserved is Ok ==> {
                &&& final(self).moved(old(self), old(self)@.after_reservation())
                &&& reserved->Ok_0.spec_program() == program
                &&& reserved->Ok_0.spec_kill_on_drop()
                &&& reserved->Ok_0.spec_hpcon() == old(self).spec_console().spec_hpcon()
            },
            reserved is Err ==> {
                &&& final(self).moved(old(self), old(self)@)
                &&& already_hosts(reserved->Err_0, program)
            },
    {
        self.spawn_root(program, true)
    }
}

/// Whether `ClearPseudoConsole` can be called: the backend has the export and the
/// console is open.
pub open spec fn clear_possible(session: &ConsoleSession) -> bool {
    &&& session.spec_console().spec_backend().spec_supports_clear()
    &&& session@.console.close != CloseState::Done
}

/// Whether `err` is the refusal to spawn `program` in a session that hosts a root
/// child already.
pub open spec fn already_hosts(err: Error, program: WideString) -> bool {
    &&& err@ is Spawn
    &&& err@->program == program
    &&& err@->source.kind == IoErrorKind::AlreadyExists
    &&& err@->source.code == None::<i32>
    &&& err@->source.message@ == "this pseudoconsole already hosts a root child process"@
    &&& err@->source.inner == None::<Box<IoError>>
}

/// A session reserved for a root child that does not exist yet.
#[derive(Debug)]
pub struct ReservedRoot {
    program: WideString,
    kill_on_drop: bool,
    hpcon: isize,
}

impl ReservedRoot {
    /// The program of the spawn.
    pub closed spec fn spec_program(&self) -> WideString {
        self.program
    }

    /// Whether dropping the child terminates its tree.
    pub closed spec fn spec_kill_on_drop(&self) -> bool {
        self.kill_on_drop
    }

    /// The handle of the session's console.
    pub closed spec fn spec_hpcon(&self) -> isize {
        self.hpcon
    }

    /// Returns whether dropping the child terminates its tree.
    pub fn kill_on_drop(&self) -> (kill: bool)
        ensures
            kill == self.spec_kill_on_drop(),
    {
        self.kill_on_drop
    }

    /// Returns the handle of the console that the process is to be attached to,
    /// which may be used as long as the session stays locked.
    ///
    /// # Errors
    ///
    /// [`IoErrorKind::NotConnected`] if and only if the console is closed.
    pub fn console_to_attach(&self, session: &ConsoleSession) -> (hpcon: core::result::Result<
        isize,
        IoError,
    >)
        requires
            self.spec_hpcon() == session.spec_console().spec_hpcon(),
        ensures
            hpcon is Err <==> session@.console.close == CloseState::Done,
            hpcon is Ok ==> hpcon->Ok_0 == session.spec_console().spec_hpcon(),
            hpcon is Err ==> says_closed(hpcon->Err_0),
    {
        match session.console.check_open() {
            Ok(()) => Ok(self.hpcon),
            Err(err) => Err(err),
        }
    }

    /// Records whether the job object and the process could be created, on the
    /// session that was reserved.
    ///
    /// # Errors
    ///
    /// A spawn error if and only if the creation failed. Nothing was attached
    /// to the pseudoconsole then, so the session can be used for another
    /// attempt.
    pub fn created(
        self,
        session: &mut ConsoleSession,
        outcome: core::result::Result<u32, IoError>,
    ) -> (created: Result<CreatedRoot>)
        requires
            self.spec_hpcon() == old(session).spec_console().spec_hpcon(),
            old(session)@.spawned,
            !old(session)@.attached,
        ensures
            final(session).moved(old(session), old(session)@.after_creation(outcome is Ok)),
            created is Ok <==> outcome is Ok,
            outcome is Ok ==> {
                &&& created->Ok_0.spec_program() == self.spec_program()
                &&& created->Ok_0.spec_kill_on_drop() == self.spec_kill_on_drop()
                &&& created->Ok_0.spec_pid() == outcome->Ok_0
                &&& created->Ok_0.spec_hpcon() == self.spec_hpcon()
            },
            outcome is Err ==> created->Err_0@ == (ErrorContext::Spawn {
                program: self.spec_program(),
                source: outcome->Err_0,
            }),
    {
        match outcome {
            Ok(pid) => {
                session.attached = true;
                Ok(
                    CreatedRoot {
                        program: self.program,
                        kill_on_drop: self.kill_on_drop,
                        hpcon: self.hpcon,
                        pid,
                    },
                )
            },
            Err(source) => {
                session.spawned = false;
                Err(Error::spawn(self.program, source))
            },
        }
    }
}

/// A root child that exists on a console that was not released yet.
#[derive(Debug)]
pub struct CreatedRoot {
    program: WideString,
    kill_on_drop: bool,
    hpcon: isize,
    pid: u32,
}

impl CreatedRoot {
    /// The program of the spawn.
    pub closed spec fn spec_program(&self) -> WideString {
        self.program
    }

    /// Whether dropping the child terminates its tree.
    pub closed spec fn spec_kill_on_drop(&self) -> bool {
        self.kill_on_drop
    }

    /// The root child's process identifier.
    pub closed spec fn spec_pid(&self) -> u32 {
        self.pid
    }

    /// The handle of the session's console.
    pub closed spec fn spec_hpcon(&self) -> isize {
        self.hpcon
    }

    /// Releases the console with `release`, which calls `ReleasePseudoConsole` on
    /// the handle that it is given, and only where that is due.
    ///
    /// A failed release is no failure of the spawn: the session falls back to
    /// the legacy shutdown, which is reported.
    pub fn released<F: FnOnce(isize) -> core::result::Result<(), IoError>>(
        self,
        session: &mut ConsoleSession,
        release: F,
        log: &mut Vec<LogRecord>,
    ) -> (released: ReleasedRoot)
        requires
            self.spec_hpcon() == old(session).spec_console().spec_hpcon(),
            release_due(old(session)) ==> release.requires((self.spec_hpcon(),)),
        ensures
            released.spec_program() == self.spec_program(),
            released.spec_kill_on_drop() == self.spec_kill_on_drop(),
            released.spec_pid() == self.spec_pid(),
            released.spec_hpcon() == self.spec_hpcon(),
            !release_due(old(session)) ==> {
                &&& final(session).moved(old(session), old(session)@)
                &&& released.spec_close_legacy() == legacy_close_due(
                    old(session)@.console.released && old(session)@.console.close
                        != CloseState::Done,
                    old(session)@.eof_on_root_exit,
                )
                &&& final(log)@ == old(log)@
            },
            release_due(old(session)) ==> exists|outcome|
                {
                    &&& #[trigger] release.ensures((self.spec_hpcon(),), outcome)
                    &&& final(session).moved(
                        old(session),
                        SessionView {
                            console: old(session)@.console.after_release(outcome is Ok),
                            ..old(session)@
                        },
                    )
                    &&& released.spec_close_legacy() == legacy_close_due(
                        outcome is Ok,
                        old(session)@.eof_on_root_exit,
                    )
                    &&& outcome is Ok ==> final(log)@ == old(log)@
                    &&& outcome is Err ==> appended(
                        old(log)@,
                        final(log)@,
                        LogLevel::Warn,
                        RELEASE_FAILED,
                        seq![("error"@, outcome->Err_0.message@)],
                    )
                },
    {
        let released: bool = match session.console.release_after_spawn(release) {
            Ok(released) => released,
            Err(err) => {
                report(log, log_release_failure(&err));
                false
            },
        };
        ReleasedRoot {
            program: self.program,
            kill_on_drop: self.kill_on_drop,
            pid: self.pid,
            hpcon: self.hpcon,
            close_legacy: should_close_legacy_on_root_exit(released, session.eof_on_root_exit),
        }
    }
}

/// Reported when `ReleasePseudoConsole` fails.
pub const RELEASE_FAILED: &'static str =
    "ReleasePseudoConsole failed; the session falls back to the legacy shutdown path";

/// Reported when a child cannot be terminated after its watcher failed.
pub const SPAWN_CLEANUP_FAILED: &'static str =
    "failed to terminate a child after root watcher setup failed";

/// Returns the report of a failed release, which is no failure of the spawn.
pub fn log_release_failure(err: &IoError) -> (record: LogRecord)
    ensures
        record.says(LogLevel::Warn, RELEASE_FAILED, seq![("error"@, err.message@)]),
        record.message@ == "ReleasePseudoConsole failed; the session falls back to the legacy shutdown path"@,
{
    let record = LogRecord::new(LogLevel::Warn, RELEASE_FAILED).with("error", err.message.as_str());
    assert(record.spec_fields() =~= seq![("error"@, err.message@)]);
    record
}

/// Returns the report of a child that could not be terminated.
pub fn log_spawn_cleanup_failure(err: &IoError) -> (record: LogRecord)
    ensures
        record.says(LogLevel::Error, SPAWN_CLEANUP_FAILED, seq![("error"@, err.message@)]),
        record.message@ == "failed to terminate a child after root watcher setup failed"@,
{
    let record = LogRecord::new(LogLevel::Error, SPAWN_CLEANUP_FAILED).with(
        "error",
        err.message.as_str(),
    );
    assert(record.spec_fields() =~= seq![("error"@, err.message@)]);
    record
}

/// Whether the release of a session's console is due.
pub open spec fn release_due(session: &ConsoleSession) -> bool {
    &&& session@.console.close != CloseState::Done
    &&& !session@.console.released
    &&& session.spec_console().spec_backend().spec_supports_release()
}

/// Whether root exit must close the console for its output to end: released
/// sessions reach end-of-file naturally, and opting out on a legacy session
/// deliberately leaves the reader open.
pub open spec fn legacy_close_due(released: bool, eof_on_root_exit: bool) -> bool {
    !released && eof_on_root_exit
}

/// Returns whether the root watcher must force legacy end-of-file.
pub fn should_close_legacy_on_root_exit(released: bool, eof_on_root_exit: bool) -> (close: bool)
    ensures
        close == legacy_close_due(released, eof_on_root_exit),
{
    !released && eof_on_root_exit
}

/// A root child whose console was released or found to be legacy, and which
/// nobody watches yet.
#[derive(Debug)]
pub struct ReleasedRoot {
    program: WideString,
    kill_on_drop: bool,
    pid: u32,
    hpcon: isize,
    close_legacy: bool,
}

impl ReleasedRoot {
    /// The program of the spawn.
    pub closed spec fn spec_program(&self) -> WideString {
        self.program
    }

    /// Whether dropping the child terminates its tree.
    pub closed spec fn spec_kill_on_drop(&self) -> bool {
        self.kill_on_drop
    }

    /// The root child's process identifier.
    pub closed spec fn spec_pid(&self) -> u32 {
        self.pid
    }

    /// The handle of the session's console.
    pub closed spec fn spec_hpcon(&self) -> isize {
        self.hpcon
    }

    /// Whether the watcher closes the console after the root exits.
    pub closed spec fn spec_close_legacy(&self) -> bool {
        self.close_legacy
    }

    /// Returns whether the watcher must close the console after the root exits.
    pub fn close_legacy(&self) -> (close: bool)
        ensures
            close == self.spec_close_legacy(),
    {
        self.close_legacy
    }

    /// Records whether the root watcher could be armed.
    ///
    /// # Errors
    ///
    /// If and only if it could not: a session without a root watcher cannot
    /// bound its process tree, so the child must be terminated with
    /// [`KILL_EXIT_CODE`] and the session retired.
    pub fn watched(
        self,
        outcome: core::result::Result<(), IoError>,
    ) -> (watched: core::result::Result<RootChild, UnwatchedRoot>)
        ensures
            outcome is Ok ==> watched == Ok::<RootChild, UnwatchedRoot>(
                RootChild { pid: self.spec_pid(), kill_on_drop: self.spec_kill_on_drop() },
            ),
            outcome is Err ==> {
                &&& watched is Err
                &&& watched->Err_0.spec_program() == self.spec_program()
                &&& watched->Err_0.spec_source() == outcome->Err_0
                &&& watched->Err_0.spec_hpcon() == self.spec_hpcon()
            },
    {
        match outcome {
            Ok(()) => Ok(RootChild { pid: self.pid, kill_on_drop: self.kill_on_drop }),
            Err(source) => Err(
                UnwatchedRoot { program: self.program, hpcon: self.hpcon, source },
            ),
        }
    }
}

/// A freshly spawned root child.
#[derive(Debug, Clone, Copy, PartialEq, Eq, Structural)]
pub struct RootChild {
    /// The root child's process identifier.
    pub pid: u32,
    /// Whether dropping the child terminates its tree.
    pub kill_on_drop: bool,
}

/// A root child that could not be watched and must not survive.
#[derive(Debug)]
pub struct UnwatchedRoot {
    program: WideString,
    hpcon: isize,
    source: IoError,
}

impl UnwatchedRoot {
    /// The program of the spawn.
    pub closed spec fn spec_program(&self) -> WideString {
        self.program
    }

    /// Why the root watcher could not be armed.
    pub closed spec fn spec_source(&self) -> IoError {
        self.source
    }

    /// The handle of the session's console.
    pub closed spec fn spec_hpcon(&self) -> isize {
        self.hpcon
    }

    /// Retires the session after the tree was terminated, or could not be.
    ///
    /// The session stays reserved: a child was attached to its console, so
    /// later spawns keep failing.
    pub fn retired(
        self,
        session: &mut ConsoleSession,
        killed: core::result::Result<(), IoError>,
        log: &mut Vec<LogRecord>,
    ) -> (retired: (Error, DetachedStep))
        requires
            self.spec_hpcon() == old(session).spec_console().spec_hpcon(),
        ensures
            retired.0@ == (ErrorContext::Spawn {
                program: self.spec_program(),
                source: self.spec_source(),
            }),
            !old(session)@.console.released ==> {
                &&& final(session).moved(old(session), old(session)@)
                &&& retired.1 == DetachedStep::StartWorker
            },
            old(session)@.console.released ==> {
                let after = old(session)@.console.after_close_request();
                &&& final(session).moved(
                    old(session),
                    SessionView { console: after, ..old(session)@ },
                )
                &&& retired.1 == DetachedStep::Requested(
                    if old(session)@.console.claims_close(after) {
                        CloseAction::Close
                    } else {
                        CloseAction::Nothing
                    },
                )
            },
            killed is Err ==> appended(
                old(log)@,
                final(log)@,
                LogLevel::Error,
                SPAWN_CLEANUP_FAILED,
                seq![("error"@, killed->Err_0.message@)],
            ),
            killed is Ok ==> final(log)@ == old(log)@,
    {
        match killed {
            Ok(()) => {},
            Err(err) => {
                report(log, log_spawn_cleanup_failure(&err));
            },
        }
        let step = session.console.request_close_detached();
        (Error::spawn(self.program, self.source), step)
    }
}

/// Root exit ends the output of a session that asked for it, in both modes: a
/// released console ends by itself, and any other is closed by its watcher,
/// whatever its reader does meanwhile.
pub proof fn root_exit_ends_the_output(console: State)
    ensures
        legacy_close_due(console.released, true) <==> !console.released,
        legacy_close_due(console.released, true) ==> console.after_close_request().close
            == CloseState::Done,
        !legacy_close_due(console.released, false),
{
}

/// One step towards a root child of a session.
pub enum SpawnEvent {
    /// A root child is wanted.
    Reserve,
    /// The creation that an outstanding reservation is for ends, successfully
    /// or not.
    Create(bool),
}

/// A session and the root children that were created on it.
pub struct Hosting {
    /// The session.
    pub session: SessionView,
    /// Reservations whose creation has not ended.
    pub outstanding: nat,
    /// Root children that were created.
    pub children: nat,
}

impl Hosting {
    /// A session that was just built.
    pub open spec fn begin(session: SessionView) -> Hosting {
        Hosting { session, outstanding: 0, children: 0 }
    }

    /// After one more step; a creation needs a reservation, and a reservation a
    /// session that is free.
    pub open spec fn after(self, event: SpawnEvent) -> Hosting {
        match event {
            SpawnEvent::Reserve => if self.session.spawned {
                self
            } else {
                Hosting {
                    session: self.session.after_reservation(),
                    outstanding: self.outstanding + 1,
                    ..self
                }
            },
            SpawnEvent::Create(succeeded) => if self.outstanding == 0 {
                self
            } else {
                Hosting {
                    session: self.session.after_creation(succeeded),
                    outstanding: (self.outstanding - 1) as nat,
                    children: if succeeded {
                        self.children + 1
                    } else {
                        self.children
                    },
                }
            },
        }
    }

    /// After a whole sequence of steps.
    pub open spec fn run(self, events: Seq<SpawnEvent>) -> Hosting
        decreases events.len(),
    {
        if events.len() == 0 {
            self
        } else {
            self.run(events.drop_last()).after(events.last())
        }
    }

    /// What every history keeps: a session is reserved exactly while a child
    /// exists or is being created, and never for two.
    pub open spec fn exclusive(self) -> bool {
        &&& self.children + self.outstanding <= 1
        &&& self.session.spawned <==> self.children + self.outstanding == 1
        &&& self.session.attached <==> self.children == 1
    }
}

/// A session never hosts more than one root child, whatever the order of the
/// attempts; and input retirement closes the console only where one exists.
pub proof fn session_hosts_at_most_one_root(session: SessionView, events: Seq<SpawnEvent>)
    requires
        !session.spawned,
        !session.attached,
    ensures
        Hosting::begin(session).run(events).exclusive(),
        Hosting::begin(session).run(events).children <= 1,
    decreases events.len(),
{
    if events.len() > 0 {
        session_hosts_at_most_one_root(session, events.drop_last());
    }
}

/// A spawn that fails before the child exists leaves the session as it was.
pub proof fn failed_creation_leaves_the_session_reusable(session: SessionView)
    requires
        !session.spawned,
    ensures
        session.after_reservation().after_creation(false) == session,
{
}

/// Once a root child was created, every later attempt is refused: no step frees
/// the session again.
pub proof fn created_root_keeps_the_session(
    session: SessionView,
    events: Seq<SpawnEvent>,
    event: SpawnEvent,
)
    requires
        !session.spawned,
        !session.attached,
        Hosting::begin(session).run(events).children == 1,
    ensures
        Hosting::begin(session).run(events).session.spawned,
        Hosting::begin(session).run(events).after(event) == Hosting::begin(session).run(events),
{
    session_hosts_at_most_one_root(session, events);
}

/// Reserving and creating a root change what they are about, and nothing else: a
/// reservation is taken, kept by a root that was created, and given back by one
/// that was not.
pub proof fn spawning_changes_one_flag(session: SessionView)
    ensures
        session.after_reservation() == (SessionView { spawned: true, ..session }),
        session.after_creation(true) == (SessionView { attached: true, ..session }),
        session.after_creation(false) == (SessionView { spawned: false, ..session }),
{
}

/// Root exit closes the console exactly where it was not released and its output
/// is meant to end with the root.
pub proof fn legacy_consoles_are_closed_at_root_exit(released: bool, eof_on_root_exit: bool)
    ensures
        legacy_close_due(released, eof_on_root_exit) ==> !released && eof_on_root_exit,
        !legacy_close_due(released, eof_on_root_exit) ==> released || !eof_on_root_exit,
{
}

/// A session clears its console exactly where the backend can and the console is
/// not closed, and releases it exactly where the backend can and it is neither
/// closed nor released.
pub proof fn open_consoles_are_cleared_and_released(session: &ConsoleSession)
    ensures
        clear_possible(session) <==> {
            &&& session.spec_console().spec_backend().spec_api().clear is Some
            &&& session@.console.close != CloseState::Done
        },
        release_due(session) <==> {
            &&& session.spec_console().spec_backend().spec_api().release is Some
            &&& session@.console.close != CloseState::Done
            &&& !session@.console.released
        },
{
}

/// A session moves without changing its console for another one.
pub proof fn sessions_keep_their_console(
    after: &ConsoleSession,
    before: &ConsoleSession,
    view: SessionView,
)
    ensures
        after.moved(before, view) <==> {
            &&& after@.console == view.console
            &&& after@.eof_on_root_exit == view.eof_on_root_exit
            &&& after@.spawned == view.spawned
            &&& after@.attached == view.attached
            &&& after.spec_console().spec_backend() == before.spec_console().spec_backend()
            &&& after.spec_console().spec_hpcon() == before.spec_console().spec_hpcon()
        },
{
}

/// A second root is refused in one way, which names its program.
pub proof fn second_roots_are_refused(err: Error, program: WideString)
    requires
        already_hosts(err, program),
    ensures
        err@ is Spawn,
        err@->program == program,
        err@->source.kind == IoErrorKind::AlreadyExists,
        err@->source.code is None,
        err@->source.message@ == "this pseudoconsole already hosts a root child process"@,
        err@->source.inner is None,
{
}

/// What is terminated exits with one, and a second is left for its output to be
/// read before a legacy console is closed.
pub proof fn terminated_roots_exit_with_one()
    ensures
        KILL_EXIT_CODE == 1,
        crate::wait::LEGACY_CLOSE_GRACE_MS == 1000,
        crate::collect::READER_WAIT_MS == 10,
{
}

} // verus!
