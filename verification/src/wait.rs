//! Child-process exit detection and the root watcher.
//!
//! An exit code is read only after the process was found signalled: asking for
//! the code of a running process "succeeds" with `STILL_ACTIVE` (259), which
//! cannot be told from a real exit code, so the order is the protocol.

pub mod registered;

use vstd::prelude::*;
use vstd::string::*;

use crate::diagnostics::{LogLevel, LogRecord};
use crate::io_error::{IoError, IoErrorKind};
use crate::pseudocon::{ConsoleShared, ReaderState};
use crate::session::KILL_EXIT_CODE;
use crate::text::{hexadecimal, push_hexadecimal};
use crate::win32::{WAIT_FAILED, WAIT_OBJECT_0, WAIT_TIMEOUT};

verus! {

/// Drain grace, in milliseconds, between child exit and the legacy close.
pub const LEGACY_CLOSE_GRACE_MS: u64 = 1000;

/// What the result of `WaitForSingleObject` on a process calls for.
#[derive(Debug)]
#[must_use]
pub enum WaitStep {
    /// The process has exited: read its exit code.
    ReadExitCode,
    /// The process is still running.
    Running,
    /// The wait failed with the last OS error.
    LastOsError,
    /// The wait returned something that it never should.
    Unexpected(IoError),
}

/// Whether `err` is the report of an unexpected wait result.
pub open spec fn unexpected_wait(err: IoError, result: u32, doing: Seq<char>) -> bool {
    &&& err.kind == IoErrorKind::Other
    &&& err.code == None::<i32>
    &&& err.message@ == "unexpected WaitForSingleObject result 0x"@ + hexadecimal(result as nat)
        + " while "@ + doing
    &&& err.inner == None::<Box<IoError>>
}

fn unexpected_wait_error(result: u32, doing: &str) -> (err: IoError)
    ensures
        unexpected_wait(err, result, doing@),
{
    let mut message = String::from_str("unexpected WaitForSingleObject result 0x");
    push_hexadecimal(&mut message, result as u64);
    message.append(" while ");
    message.append(doing);
    IoError::other(message.as_str())
}

/// Decides what the result of an infinite wait for the child's exit calls for.
pub fn waited(result: u32) -> (step: WaitStep)
    ensures
        step is ReadExitCode <==> result == 0,
        step is LastOsError <==> result == 0xFFFF_FFFF,
        step is ReadExitCode <==> result == WAIT_OBJECT_0,
        step is LastOsError <==> result == WAIT_FAILED,
        step is Unexpected <==> result != WAIT_OBJECT_0 && result != WAIT_FAILED,
        step is Unexpected ==> unexpected_wait(
            step->Unexpected_0,
            result,
            "waiting for child exit"@,
        ),
{
    if result == WAIT_OBJECT_0 {
        WaitStep::ReadExitCode
    } else if result == WAIT_FAILED {
        WaitStep::LastOsError
    } else {
        WaitStep::Unexpected(unexpected_wait_error(result, "waiting for child exit"))
    }
}

/// Decides what the result of a poll of the child's exit calls for.
pub fn polled(result: u32) -> (step: WaitStep)
    ensures
        step is ReadExitCode <==> result == 0,
        step is Running <==> result == 258,
        step is LastOsError <==> result == 0xFFFF_FFFF,
        step is ReadExitCode <==> result == WAIT_OBJECT_0,
        step is Running <==> result == WAIT_TIMEOUT,
        step is LastOsError <==> result == WAIT_FAILED,
        step is Unexpected <==> result != WAIT_OBJECT_0 && result != WAIT_TIMEOUT && result
            != WAIT_FAILED,
        step is Unexpected ==> unexpected_wait(step->Unexpected_0, result, "polling child exit"@),
{
    if result == WAIT_OBJECT_0 {
        WaitStep::ReadExitCode
    } else if result == WAIT_TIMEOUT {
        WaitStep::Running
    } else if result == WAIT_FAILED {
        WaitStep::LastOsError
    } else {
        WaitStep::Unexpected(unexpected_wait_error(result, "polling child exit"))
    }
}

/// What remains to be done once the root process has exited.
#[derive(Debug, Clone, Copy, PartialEq, Eq, Structural)]
#[must_use]
pub struct RootExit {
    /// The exit code to terminate what remains of the tree with, if its job
    /// still exists.
    pub terminate: Option<u32>,
    /// How long to let the reader drain before the close, in milliseconds.
    pub grace_ms: u64,
    /// Whether to request a close of the console afterwards.
    pub close: bool,
}

/// Decides what root exit calls for.
///
/// `console` is `None` once the last owner of the session is gone. A session
/// that needs no legacy close is left alone: its output ends naturally, or was
/// meant to stay open.
pub fn root_exit(
    job_exists: bool,
    console: Option<&ConsoleShared>,
    close_legacy: bool,
    grace_ms: u64,
) -> (exit: RootExit)
    ensures
        exit.terminate == (if job_exists {
            Some(KILL_EXIT_CODE)
        } else {
            None
        }),
        exit.terminate == (if job_exists {
            Some(1u32)
        } else {
            None
        }),
        exit.close == (close_legacy && console is Some),
        exit.grace_ms == (if exit.close && console->0@.reader == ReaderState::Open {
            grace_ms
        } else {
            0
        }),
{
    let terminate: Option<u32> = if job_exists {
        Some(KILL_EXIT_CODE)
    } else {
        None
    };
    match console {
        Some(console) if close_legacy => {
            let grace_ms: u64 = if should_wait_for_legacy_reader(console.reader_finished()) {
                grace_ms
            } else {
                0
            };
            RootExit { terminate, grace_ms, close: true }
        },
        _ => RootExit { terminate, grace_ms: 0, close: false },
    }
}

/// Returns whether a legacy close leaves the reader time to drain first.
pub fn should_wait_for_legacy_reader(reader_finished: bool) -> (wait: bool)
    ensures
        wait == !reader_finished,
{
    !reader_finished
}

/// Reported when a panic is stopped at a thread-pool callback.
pub const CALLBACK_PANICKED: &'static str =
    "contained a panic at a Windows thread-pool callback boundary";

/// Reported when a process wait cannot be unregistered.
pub const UNREGISTER_FAILED: &'static str =
    "failed to unregister process wait; retaining its callback context for safety";

/// Reported when the tree cannot be terminated after root exit.
pub const ROOT_EXIT_KILL_FAILED: &'static str =
    "failed to terminate the remaining process tree after root exit";

/// Reported when the legacy close has to run in the callback itself.
pub const LEGACY_WORKER_FAILED: &'static str =
    "failed to spawn legacy close worker; completed close in callback and retained context";

/// Returns the report of a panic that was stopped at `callback`.
pub fn log_callback_panic(callback: &str) -> (record: LogRecord)
    ensures
        record.says(LogLevel::Error, CALLBACK_PANICKED, seq![("callback"@, callback@)]),
        record.message@ == "contained a panic at a Windows thread-pool callback boundary"@,
{
    let record = LogRecord::new(LogLevel::Error, CALLBACK_PANICKED).with("callback", callback);
    assert(record.spec_fields() =~= seq![("callback"@, callback@)]);
    record
}

/// Returns the report of a wait that could not be unregistered.
pub fn log_unregister_failure(err: &IoError) -> (record: LogRecord)
    ensures
        record.says(LogLevel::Error, UNREGISTER_FAILED, seq![("error"@, err.message@)]),
        record.message@ == "failed to unregister process wait; retaining its callback context for safety"@,
{
    let record = LogRecord::new(LogLevel::Error, UNREGISTER_FAILED).with("error", err.message.as_str());
    assert(record.spec_fields() =~= seq![("error"@, err.message@)]);
    record
}

/// Returns the report of a tree that could not be terminated after root exit.
pub fn log_root_watcher_kill_failure(err: &IoError) -> (record: LogRecord)
    ensures
        record.says(LogLevel::Error, ROOT_EXIT_KILL_FAILED, seq![("error"@, err.message@)]),
        record.message@ == "failed to terminate the remaining process tree after root exit"@,
{
    let record = LogRecord::new(LogLevel::Error, ROOT_EXIT_KILL_FAILED).with("error", err.message.as_str());
    assert(record.spec_fields() =~= seq![("error"@, err.message@)]);
    record
}

/// Returns the report of a close worker that could not be started.
pub fn log_legacy_worker_failure(err: &IoError) -> (record: LogRecord)
    ensures
        record.says(LogLevel::Error, LEGACY_WORKER_FAILED, seq![("error"@, err.message@)]),
        record.message@ == "failed to spawn legacy close worker; completed close in callback and retained context"@,
{
    let record = LogRecord::new(LogLevel::Error, LEGACY_WORKER_FAILED).with("error", err.message.as_str());
    assert(record.spec_fields() =~= seq![("error"@, err.message@)]);
    record
}

/// An unexpected wait result is reported as it is, in hexadecimal, with what was
/// being waited for.
pub proof fn unexpected_waits_are_reported(err: IoError, result: u32, doing: Seq<char>)
    requires
        unexpected_wait(err, result, doing),
    ensures
        err.kind == IoErrorKind::Other,
        err.code is None,
        err.inner is None,
        err.message@ == "unexpected WaitForSingleObject result 0x"@ + hexadecimal(result as nat)
            + " while "@ + doing,
{
}

} // verus!
