//! Pseudoconsole lifecycle: `HPCON` ownership and the release/close state
//! machine.
//!
//! `ClosePseudoConsole` has to be called exactly once, never from a thread it
//! could deadlock, and never in a state where it can block forever, whatever
//! the order in which the reader, writer, controller and child handles go away.
//!
//! # The two lifecycle modes
//!
//! - **Released mode**: right after the child is spawned the console is
//!   released. From then on the console host exits with its last client, the
//!   output pipe breaks, and the reader sees a natural end-of-file. The handle
//!   still has to be closed later, which is prompt.
//! - **Legacy mode**: the console host outlives the child, so only
//!   `ClosePseudoConsole` produces end-of-file, and that call may wait for a
//!   reader to drain the host's pending output.
//!
//! # Who closes
//!
//! Every path goes through one [`State`], which its owner keeps behind a lock.
//! Whoever flips [`CloseState`] to `Done` owes the one call; each method here
//! returns whether its caller does. The call itself runs after the lock is
//! dropped, so that no other lifecycle event waits behind it.

pub mod lifetime;

use vstd::prelude::*;

use crate::backend::ConPtyBackend;
use crate::diagnostics::{LogLevel, LogRecord};
use crate::io_error::{is_disconnect_error, IoError, IoErrorKind};
use crate::size::Size;
use crate::win32::PSEUDOCONSOLE_INHERIT_CURSOR;

verus! {

/// State of the output read end, as reported by the reader.
///
/// The state only moves forward: `Open`, then `Drained`, then `Closed`, or from
/// `Open` to `Closed` at once.
#[derive(Debug, Clone, Copy, PartialEq, Eq, Structural)]
pub enum ReaderState {
    /// The read end may still be read.
    Open,
    /// The reader observed end-of-file: the console host is gone.
    Drained,
    /// The read end has been dropped.
    Closed,
}

/// Progress of the one and only `ClosePseudoConsole` call.
#[derive(Debug, Clone, Copy, PartialEq, Eq, Structural)]
pub enum CloseState {
    /// Nobody has asked for the pseudoconsole to be closed yet.
    NotRequested,
    /// A close was requested while the reader was live in released mode; it
    /// runs as soon as the reader is drained or closed.
    Requested,
    /// The close has been claimed; the handle must never be touched again.
    Done,
}

/// The lifecycle state of one pseudoconsole.
#[derive(Debug, Clone, Copy, PartialEq, Eq, Structural)]
pub struct State {
    /// Last size that the console accepted.
    pub size: Size,
    /// Whether `ReleasePseudoConsole` succeeded.
    pub released: bool,
    /// Whether an attempt to release failed.
    pub release_failed: bool,
    /// What the reader reported.
    pub reader: ReaderState,
    /// How far the close is.
    pub close: CloseState,
}

impl State {
    /// The state of a console that was just created.
    pub open spec fn fresh(size: Size) -> State {
        State {
            size,
            released: false,
            release_failed: false,
            reader: ReaderState::Open,
            close: CloseState::NotRequested,
        }
    }

    /// A close is pending only while natural end-of-file is still to come.
    pub open spec fn consistent(self) -> bool {
        self.close == CloseState::Requested ==> self.released && self.reader == ReaderState::Open
    }

    /// After a release attempt that returned.
    pub open spec fn after_release(self, succeeded: bool) -> State {
        if succeeded {
            State { released: true, ..self }
        } else {
            State { release_failed: true, ..self }
        }
    }

    /// After the reader saw end-of-file: the console host is gone, so the
    /// handle is retired too.
    pub open spec fn after_reader_eof(self) -> State {
        State {
            reader: if self.reader == ReaderState::Open {
                ReaderState::Drained
            } else {
                self.reader
            },
            close: CloseState::Done,
            ..self
        }
    }

    /// After the read end was dropped: a pending close runs.
    pub open spec fn after_reader_closed(self) -> State {
        State {
            reader: ReaderState::Closed,
            close: if self.close == CloseState::Requested {
                CloseState::Done
            } else {
                self.close
            },
            ..self
        }
    }

    /// After a close request: deferred while a released console has a live
    /// reader, and claimed in every other case.
    pub open spec fn after_close_request(self) -> State {
        State {
            close: if self.close != CloseState::Done && self.released && self.reader
                == ReaderState::Open {
                CloseState::Requested
            } else {
                CloseState::Done
            },
            ..self
        }
    }

    /// After a close request whose close may run on a worker that stands ready:
    /// released consoles take the ordinary request, all others are claimed.
    pub open spec fn after_detached_claim(self) -> State {
        if self.released {
            self.after_close_request()
        } else {
            State { close: CloseState::Done, ..self }
        }
    }

    /// After a claim that did not reach its worker: the close can be claimed
    /// again.
    pub open spec fn after_failed_handoff(self) -> State {
        State { close: CloseState::NotRequested, ..self }
    }

    /// Whether the step from `self` to `after` claims the close.
    pub open spec fn claims_close(self, after: State) -> bool {
        self.close != CloseState::Done && after.close == CloseState::Done
    }
}

/// Whether the caller now owes the `ClosePseudoConsole` call.
#[derive(Debug, Clone, Copy, PartialEq, Eq, Structural)]
#[must_use]
pub enum CloseAction {
    /// Nothing is owed.
    Nothing,
    /// The caller holds the only claim and must call `ClosePseudoConsole`.
    Close,
}

/// What a close request from a thread that must not block calls for.
#[derive(Debug, Clone, Copy, PartialEq, Eq, Structural)]
#[must_use]
pub enum DetachedStep {
    /// The request was made on the spot.
    Requested(CloseAction),
    /// A worker must stand ready before the close is claimed.
    StartWorker,
}

/// The claim to a close that is on its way to a worker.
///
/// There is one for each close that is handed over, and it cannot be copied:
/// either it reaches the worker, which gives it up for the handle and closes, or
/// it comes back to [`ConsoleShared::handoff_failed`].
#[derive(Debug, PartialEq, Eq, Structural)]
#[must_use]
pub struct CloseClaim {
    hpcon: isize,
}

impl CloseClaim {
    /// The handle of the console to be closed.
    pub closed spec fn spec_hpcon(&self) -> isize {
        self.hpcon
    }

    /// Gives the claim up for the handle, on which the caller must now call
    /// `ClosePseudoConsole`.
    pub fn into_hpcon(self) -> (hpcon: isize)
        ensures
            hpcon == self.spec_hpcon(),
    {
        self.hpcon
    }
}

/// What to tell the worker that stands ready.
#[derive(Debug, PartialEq, Eq, Structural)]
#[must_use]
pub enum DetachedClaim {
    /// Dismiss the worker: the close was claimed by someone else.
    Dismiss,
    /// Dismiss the worker: the console was released meanwhile, and the request
    /// was made on the spot.
    DismissAnd(CloseAction),
    /// Hand the close to the worker, with this claim.
    HandOff(CloseClaim),
}

/// How the last owner of a console closes it.
#[derive(Debug, Clone, Copy, PartialEq, Eq, Structural)]
#[must_use]
pub enum FinalClose {
    /// The close was claimed before.
    Nothing,
    /// The close is prompt and runs here.
    Inline,
    /// The close may wait and runs on a thread of its own.
    Detached,
}

/// The shared core of one pseudoconsole session.
#[derive(Debug)]
pub struct ConsoleShared {
    backend: ConPtyBackend,
    hpcon: isize,
    state: State,
}

impl View for ConsoleShared {
    type V = State;

    closed spec fn view(&self) -> State {
        self.state
    }
}

impl ConsoleShared {
    /// The backend that the console was created on.
    pub closed spec fn spec_backend(&self) -> ConPtyBackend {
        self.backend
    }

    /// The console's handle.
    pub closed spec fn spec_hpcon(&self) -> isize {
        self.hpcon
    }

    #[verifier::type_invariant]
    spec fn inv(self) -> bool {
        self.state.consistent()
    }

    /// Whether `self` and `other` are the same console in possibly different
    /// states.
    pub open spec fn same_console(&self, other: &ConsoleShared) -> bool {
        self.spec_backend() == other.spec_backend() && self.spec_hpcon() == other.spec_hpcon()
    }

    /// Wraps the handle that `CreatePseudoConsole` returned for `size`.
    pub fn new(backend: ConPtyBackend, size: Size, hpcon: isize) -> (console: ConsoleShared)
        ensures
            console@ == State::fresh(size),
            console.spec_backend() == backend,
            console.spec_hpcon() == hpcon,
    {
        ConsoleShared {
            backend,
            hpcon,
            state: State {
                size,
                released: false,
                release_failed: false,
                reader: ReaderState::Open,
                close: CloseState::NotRequested,
            },
        }
    }

    /// Whether `ReleasePseudoConsole` is due: the console is open and not released
    /// yet, and its backend has the export.
    pub open spec fn release_due(&self) -> bool {
        &&& self@.close != CloseState::Done
        &&& !self@.released
        &&& self.spec_backend().spec_supports_release()
    }

    /// Releases the console, which is due once, right after the child process has
    /// been spawned; returns whether it is in released mode.
    ///
    /// `release` calls `ReleasePseudoConsole` on the handle that it is given. It
    /// is not called on a console that is closed or released, nor where the
    /// export is missing.
    ///
    /// # Errors
    ///
    /// The failure of the call, which leaves the console in legacy mode: a caller
    /// treats it like `Ok(false)` for shutdown purposes.
    pub fn release_after_spawn<F: FnOnce(isize) -> Result<(), IoError>>(
        &mut self,
        release: F,
    ) -> (released: Result<bool, IoError>)
        requires
            old(self).release_due() ==> release.requires((old(self).spec_hpcon(),)),
        ensures
            final(self).same_console(old(self)),
            !old(self).release_due() ==> {
                &&& final(self)@ == old(self)@
                &&& released == Ok::<bool, IoError>(
                    old(self)@.released && old(self)@.close != CloseState::Done,
                )
            },
            old(self).release_due() ==> exists|outcome|
                {
                    &&& #[trigger] release.ensures((old(self).spec_hpcon(),), outcome)
                    &&& final(self)@ == old(self)@.after_release(outcome is Ok)
                    &&& outcome is Ok ==> released == Ok::<bool, IoError>(true)
                    &&& outcome is Err ==> released == Err::<bool, IoError>(outcome->Err_0)
                },
    {
        proof {
            use_type_invariant(&*self);
        }
        if self.state.close == CloseState::Done {
            return Ok(false);
        }
        if self.state.released {
            return Ok(true);
        }
        if !self.backend.supports_release() {
            return Ok(false);
        }
        match release(self.hpcon) {
            Ok(()) => {
                self.state.released = true;
                Ok(true)
            },
            Err(err) => {
                self.state.release_failed = true;
                Err(err)
            },
        }
    }

    /// Records that the reader observed end-of-file and claims what is left of
    /// the handle.
    ///
    /// The close may run on the reader's own thread: end-of-file proves that
    /// the console host is gone, so there is nothing left to wait for.
    pub fn notify_reader_eof(&mut self) -> (action: CloseAction)
        ensures
            final(self).same_console(old(self)),
            final(self)@ == old(self)@.after_reader_eof(),
            action == CloseAction::Close <==> old(self)@.claims_close(final(self)@),
    {
        proof {
            use_type_invariant(&*self);
        }
        let before = self.state.close;
        if self.state.reader == ReaderState::Open {
            self.state =
            State { reader: ReaderState::Drained, close: CloseState::Done, ..self.state };
        } else {
            self.state.close = CloseState::Done;
        }
        if before == CloseState::Done {
            CloseAction::Nothing
        } else {
            CloseAction::Close
        }
    }

    /// Records that the read end has been dropped, and claims a close that was
    /// pending on it.
    pub fn notify_reader_closed(&mut self) -> (action: CloseAction)
        ensures
            final(self).same_console(old(self)),
            final(self)@ == old(self)@.after_reader_closed(),
            action == CloseAction::Close <==> old(self)@.claims_close(final(self)@),
    {
        proof {
            use_type_invariant(&*self);
        }
        if self.state.close == CloseState::Requested {
            self.state =
            State { reader: ReaderState::Closed, close: CloseState::Done, ..self.state };
            CloseAction::Close
        } else {
            self.state.reader = ReaderState::Closed;
            CloseAction::Nothing
        }
    }

    /// Requests that the pseudoconsole be closed.
    ///
    /// - Reader drained or closed: the caller closes now.
    /// - Reader live, released mode: deferred to the reader's own end.
    /// - Reader live, legacy mode: the caller closes now, which may block until
    ///   the reader has drained the console host's remaining output. It is the
    ///   only way in which legacy mode produces end-of-file.
    ///
    /// The thread that reads the output must never make this request.
    pub fn request_close(&mut self) -> (action: CloseAction)
        ensures
            final(self).same_console(old(self)),
            final(self)@ == old(self)@.after_close_request(),
            action == CloseAction::Close <==> old(self)@.claims_close(final(self)@),
    {
        proof {
            use_type_invariant(&*self);
        }
        if self.state.close == CloseState::Done {
            return CloseAction::Nothing;
        }
        if self.state.reader == ReaderState::Open && self.state.released {
            self.state.close = CloseState::Requested;
            return CloseAction::Nothing;
        }
        self.state.close = CloseState::Done;
        CloseAction::Close
    }

    /// Requests a close from a thread on which a legacy close must never run,
    /// such as the one that retires the input pipe.
    ///
    /// A released console takes the ordinary request. Any other console is left
    /// as it is until a worker stands ready, see [`Self::claim_detached`]; if
    /// none can be started, nothing was claimed and a later request, the root
    /// watcher or the last owner can still close.
    pub fn request_close_detached(&mut self) -> (step: DetachedStep)
        ensures
            final(self).same_console(old(self)),
            old(self)@.released ==> {
                &&& final(self)@ == old(self)@.after_close_request()
                &&& step == DetachedStep::Requested(
                    if old(self)@.claims_close(final(self)@) {
                        CloseAction::Close
                    } else {
                        CloseAction::Nothing
                    },
                )
            },
            !old(self)@.released ==> final(self)@ == old(self)@ && step
                == DetachedStep::StartWorker,
    {
        if self.state.released {
            DetachedStep::Requested(self.request_close())
        } else {
            DetachedStep::StartWorker
        }
    }

    /// Claims the close for a worker that stands ready.
    pub fn claim_detached(&mut self) -> (claim: DetachedClaim)
        ensures
            final(self).same_console(old(self)),
            final(self)@ == old(self)@.after_detached_claim(),
            old(self)@.close == CloseState::Done ==> claim == DetachedClaim::Dismiss,
            old(self)@.close != CloseState::Done && old(self)@.released ==> claim
                == DetachedClaim::DismissAnd(
                if old(self)@.claims_close(final(self)@) {
                    CloseAction::Close
                } else {
                    CloseAction::Nothing
                },
            ),
            old(self)@.close != CloseState::Done && !old(self)@.released ==> {
                &&& claim is HandOff
                &&& claim->HandOff_0.spec_hpcon() == old(self).spec_hpcon()
            },
    {
        proof {
            use_type_invariant(&*self);
        }
        if self.state.close == CloseState::Done {
            return DetachedClaim::Dismiss;
        }
        if self.state.released {
            return DetachedClaim::DismissAnd(self.request_close());
        }
        self.state.close = CloseState::Done;
        DetachedClaim::HandOff(CloseClaim { hpcon: self.hpcon })
    }

    /// Takes back a claim that did not reach its worker.
    ///
    /// The worker closes only in exchange for the claim, so a claim that came
    /// back proves that it did not.
    pub fn handoff_failed(&mut self, claim: CloseClaim)
        requires
            claim.spec_hpcon() == old(self).spec_hpcon(),
            old(self)@.close == CloseState::Done,
        ensures
            final(self).same_console(old(self)),
            final(self)@ == old(self)@.after_failed_handoff(),
    {
        proof {
            use_type_invariant(&*self);
        }
        self.state.close = CloseState::NotRequested;
    }

    /// Decides whether the handle may still be used: to resize, to clear, or to
    /// attach a process.
    ///
    /// # Errors
    ///
    /// [`IoErrorKind::NotConnected`] if and only if the close was claimed.
    pub fn check_open(&self) -> (open: Result<(), IoError>)
        ensures
            open is Err <==> self@.close == CloseState::Done,
            open is Err ==> says_closed(open->Err_0),
    {
        if self.state.close == CloseState::Done {
            return Err(
                IoError::new(IoErrorKind::NotConnected, "the pseudoconsole has been closed"),
            );
        }
        Ok(())
    }

    /// Resizes the console with `resize`, which calls `ResizePseudoConsole` on the
    /// handle and with the size that it is given, and records the new size.
    ///
    /// # Errors
    ///
    /// [`IoErrorKind::NotConnected`] if and only if the close was claimed, without
    /// a call; and else the call's failure, as [`normalize_session_end`] presents
    /// it. The recorded size is then unchanged.
    pub fn resize<F: FnOnce(isize, Size) -> Result<(), IoError>>(
        &mut self,
        size: Size,
        resize: F,
    ) -> (resized: Result<(), IoError>)
        requires
            old(self)@.close != CloseState::Done ==> resize.requires(
                (old(self).spec_hpcon(), size),
            ),
        ensures
            final(self).same_console(old(self)),
            old(self)@.close == CloseState::Done ==> {
                &&& final(self)@ == old(self)@
                &&& resized is Err
                &&& says_closed(resized->Err_0)
            },
            old(self)@.close != CloseState::Done ==> exists|outcome|
                {
                    &&& #[trigger] resize.ensures((old(self).spec_hpcon(), size), outcome)
                    &&& resized is Ok <==> outcome is Ok
                    &&& outcome is Ok ==> final(self)@ == (State { size, ..old(self)@ })
                    &&& outcome is Err ==> {
                        &&& final(self)@ == old(self)@
                        &&& session_end(outcome->Err_0, resized->Err_0)
                    }
                },
    {
        proof {
            use_type_invariant(&*self);
        }
        match self.check_open() {
            Ok(()) => {},
            Err(err) => return Err(err),
        }
        match resize(self.hpcon, size) {
            Ok(()) => {
                self.state.size = size;
                Ok(())
            },
            Err(err) => Err(normalize_session_end(err)),
        }
    }

    /// Clears the console with `clear`, which calls `ClearPseudoConsole` on the
    /// handle that it is given.
    ///
    /// # Errors
    ///
    /// [`IoErrorKind::NotConnected`] if and only if the close was claimed; else
    /// [`IoErrorKind::Unsupported`] if and only if the backend lacks the export,
    /// both without a call; and else the call's failure as
    /// [`normalize_session_end`] presents it.
    pub fn clear<F: FnOnce(isize) -> Result<(), IoError>>(&self, clear: F) -> (cleared: Result<
        (),
        IoError,
    >)
        requires
            self@.close != CloseState::Done && self.spec_backend().spec_supports_clear()
                ==> clear.requires((self.spec_hpcon(),)),
        ensures
            self@.close == CloseState::Done ==> cleared is Err && says_closed(cleared->Err_0),
            (self@.close != CloseState::Done && !self.spec_backend().spec_supports_clear()) ==> {
                &&& cleared is Err
                &&& cleared->Err_0.kind == IoErrorKind::Unsupported
                &&& cleared->Err_0.code == None::<i32>
                &&& cleared->Err_0.message@
                    == "this ConPTY backend does not export ClearPseudoConsole"@
                &&& cleared->Err_0.inner == None::<Box<IoError>>
            },
            (self@.close != CloseState::Done && self.spec_backend().spec_supports_clear())
                ==> exists|outcome|
                {
                    &&& #[trigger] clear.ensures((self.spec_hpcon(),), outcome)
                    &&& cleared is Ok <==> outcome is Ok
                    &&& outcome is Err ==> session_end(outcome->Err_0, cleared->Err_0)
                },
    {
        match self.check_open() {
            Ok(()) => {},
            Err(err) => return Err(err),
        }
        if !self.backend.supports_clear() {
            return Err(
                IoError::new(
                    IoErrorKind::Unsupported,
                    "this ConPTY backend does not export ClearPseudoConsole",
                ),
            );
        }
        match clear(self.hpcon) {
            Ok(()) => Ok(()),
            Err(err) => Err(normalize_session_end(err)),
        }
    }

    /// Claims the close for the last owner, when nobody claimed it before.
    ///
    /// A released console, or one whose reader saw end-of-file, closes promptly
    /// on the spot. Every other legacy state may wait, which no destructor is
    /// allowed to do.
    pub fn final_close(&mut self) -> (how: FinalClose)
        ensures
            final(self).same_console(old(self)),
            final(self)@ == (State { close: CloseState::Done, ..old(self)@ }),
            how == final_close_of(old(self)@),
    {
        proof {
            use_type_invariant(&*self);
        }
        if self.state.close == CloseState::Done {
            return FinalClose::Nothing;
        }
        self.state.close = CloseState::Done;
        if !self.state.released && self.state.reader != ReaderState::Drained {
            FinalClose::Detached
        } else {
            FinalClose::Inline
        }
    }

    /// Returns the backend.
    pub fn backend(&self) -> (backend: &ConPtyBackend)
        ensures
            *backend == self.spec_backend(),
    {
        &self.backend
    }

    /// Returns the raw handle, which stays valid until the close is claimed.
    pub fn hpcon(&self) -> (hpcon: isize)
        ensures
            hpcon == self.spec_hpcon(),
    {
        self.hpcon
    }

    /// Returns the initial size or the last size that the console accepted.
    pub fn size(&self) -> (size: Size)
        ensures
            size == self@.size,
    {
        self.state.size
    }

    /// Returns whether the session is in released mode.
    pub fn is_released(&self) -> (released: bool)
        ensures
            released == self@.released,
    {
        self.state.released
    }

    /// Returns whether an attempt to release failed.
    pub fn release_failed(&self) -> (failed: bool)
        ensures
            failed == self@.release_failed,
    {
        self.state.release_failed
    }

    /// Returns whether the close has been claimed.
    pub fn is_closed(&self) -> (closed: bool)
        ensures
            closed == (self@.close == CloseState::Done),
    {
        self.state.close == CloseState::Done
    }

    /// Returns whether the reader is drained or closed.
    pub fn reader_finished(&self) -> (finished: bool)
        ensures
            finished == (self@.reader != ReaderState::Open),
    {
        self.state.reader != ReaderState::Open
    }
}

/// How the last owner of a console in state `s` closes it.
pub open spec fn final_close_of(s: State) -> FinalClose {
    if s.close == CloseState::Done {
        FinalClose::Nothing
    } else if s.released || s.reader == ReaderState::Drained {
        FinalClose::Inline
    } else {
        FinalClose::Detached
    }
}

/// Whether `err` says that the console is closed.
pub open spec fn says_closed(err: IoError) -> bool {
    &&& err.kind == IoErrorKind::NotConnected
    &&& err.code == None::<i32>
    &&& err.message@ == "the pseudoconsole has been closed"@
    &&& err.inner == None::<Box<IoError>>
}

/// Whether `shown` is how the failure `err` of a console signal is presented: a
/// disconnect as [`IoErrorKind::NotConnected`] around the failure, anything
/// else as it is.
pub open spec fn session_end(err: IoError, shown: IoError) -> bool {
    if err.is_disconnect() {
        &&& shown.kind == IoErrorKind::NotConnected
        &&& shown.code == None::<i32>
        &&& shown.message@ == err.message@
        &&& shown.inner == Some(Box::new(err))
    } else {
        shown == err
    }
}

/// Presents "the console host is already gone" as
/// [`IoErrorKind::NotConnected`], which keeps that contract the same whether
/// the session ended by a close or by natural end-of-file.
pub fn normalize_session_end(err: IoError) -> (shown: IoError)
    ensures
        session_end(err, shown),
{
    if is_disconnect_error(&err) {
        IoError::wrap(IoErrorKind::NotConnected, err)
    } else {
        err
    }
}

/// Returns the flags for `CreatePseudoConsole`.
///
/// Inheriting the cursor makes the console emit a cursor-position query and
/// stall all input until the reply arrives, so it needs both pipes pumped.
pub fn create_flags(inherit_cursor: bool) -> (flags: u32)
    ensures
        flags == (if inherit_cursor {
            PSEUDOCONSOLE_INHERIT_CURSOR
        } else {
            0u32
        }),
        flags == (if inherit_cursor {
            1u32
        } else {
            0u32
        }),
{
    if inherit_cursor {
        PSEUDOCONSOLE_INHERIT_CURSOR
    } else {
        0
    }
}

/// Reported when a close worker cannot be started, or cannot be told to start.
pub const CLOSE_WORKER_FAILED: &'static str =
    "failed to spawn or start pseudoconsole close worker";

/// Returns the report of a close worker that failed; `retryable` says whether
/// the close can still be claimed by someone else.
pub fn log_close_worker_spawn_failure(
    err: &IoError,
    worker: &str,
    retryable: bool,
) -> (record: LogRecord)
    ensures
        record.says(
            LogLevel::Error,
            CLOSE_WORKER_FAILED,
            seq![
                ("error"@, err.message@),
                ("worker"@, worker@),
                (
                    "retryable"@,
                    if retryable {
                        "true"@
                    } else {
                        "false"@
                    },
                ),
            ],
        ),
        record.message@ == "failed to spawn or start pseudoconsole close worker"@,
{
    let shown: &str = if retryable {
        "true"
    } else {
        "false"
    };
    let record = LogRecord::new(LogLevel::Error, CLOSE_WORKER_FAILED).with(
        "error",
        err.message.as_str(),
    ).with("worker", worker).with("retryable", shown);
    assert(record.spec_fields() =~= seq![
        ("error"@, err.message@),
        ("worker"@, worker@),
        ("retryable"@, shown@),
    ]);
    record
}

/// A close request waits only for the live reader of a released console; in every
/// other state in which nobody closed yet, whoever asks has to close. Nothing but
/// the progress of the close changes.
pub proof fn close_waits_only_for_a_live_reader(s: State)
    ensures
        ({
            let after = s.after_close_request();
            let waits = s.released && s.reader == ReaderState::Open;
            &&& after == (State { close: after.close, ..s })
            &&& s.close != CloseState::Done && waits ==> after.close == CloseState::Requested
                && !s.claims_close(after)
            &&& s.close != CloseState::Done && !waits ==> after.close == CloseState::Done
                && s.claims_close(after)
            &&& s.close == CloseState::Done ==> after == s && !s.claims_close(after)
        }),
{
}

/// A close request for a worker is the ordinary one on a released console. On any
/// other it claims the close, unless that was claimed before. Nothing else changes.
pub proof fn workers_claim_unreleased_consoles(s: State)
    ensures
        ({
            let after = s.after_detached_claim();
            let waits = s.released && s.reader == ReaderState::Open;
            &&& after == (State { close: after.close, ..s })
            &&& after.close == CloseState::Requested <==> s.close != CloseState::Done && waits
            &&& after.close == CloseState::Done <==> s.close == CloseState::Done || !waits
            &&& s.claims_close(after) <==> s.close != CloseState::Done && !waits
        }),
{
}

/// End-of-file retires the handle, whatever the state: whoever reads it has to
/// close, unless somebody did. A reader that was dropped stays so.
pub proof fn end_of_file_retires_the_handle(s: State)
    ensures
        ({
            let after = s.after_reader_eof();
            &&& after == (State { close: CloseState::Done, reader: after.reader, ..s })
            &&& s.reader == ReaderState::Open ==> after.reader == ReaderState::Drained
            &&& s.reader != ReaderState::Open ==> after.reader == s.reader
            &&& s.claims_close(after) <==> s.close != CloseState::Done
        }),
{
}

/// Dropping the reader runs a close that waited for it, and no other.
pub proof fn dropped_reader_runs_the_waiting_close(s: State)
    ensures
        ({
            let after = s.after_reader_closed();
            &&& after == (State { close: after.close, reader: ReaderState::Closed, ..s })
            &&& s.close == CloseState::Requested ==> after.close == CloseState::Done
                && s.claims_close(after)
            &&& s.close != CloseState::Requested ==> after.close == s.close && !s.claims_close(
                after,
            )
        }),
{
}

/// A release attempt records how it went, and nothing else; a claim that came back
/// can be made again; and a new console is open, unreleased and has its size.
pub proof fn release_and_handoff_change_one_thing(s: State, succeeded: bool, size: Size)
    ensures
        s.after_release(true) == (State { released: true, ..s }),
        s.after_release(false) == (State { release_failed: true, ..s }),
        s.after_failed_handoff() == (State { close: CloseState::NotRequested, ..s }),
        !s.claims_close(s.after_release(succeeded)),
        !s.claims_close(s.after_failed_handoff()),
        State::fresh(size).size == size,
        !State::fresh(size).released,
        !State::fresh(size).release_failed,
        State::fresh(size).reader == ReaderState::Open,
        State::fresh(size).close == CloseState::NotRequested,
{
}

/// The last owner closes what nobody closed: on the spot exactly where that is
/// prompt, because the console was released or its output has ended.
pub proof fn last_owner_waits_for_nothing(s: State)
    ensures
        final_close_of(s) == FinalClose::Nothing <==> s.close == CloseState::Done,
        final_close_of(s) == FinalClose::Inline <==> s.close != CloseState::Done && (s.released
            || s.reader == ReaderState::Drained),
        final_close_of(s) == FinalClose::Detached <==> s.close != CloseState::Done && !s.released
            && s.reader != ReaderState::Drained,
{
}

/// Every claim is made once: a step claims the close exactly where it turns one
/// that nobody claimed into a claimed one.
pub proof fn claims_are_made_once(before: State, after: State)
    ensures
        before.claims_close(after) <==> (before.close == CloseState::NotRequested || before.close
            == CloseState::Requested) && after.close == CloseState::Done,
        before.claims_close(after) ==> !after.claims_close(before) && !after.claims_close(after),
{
}

/// A console is released exactly where it is neither closed nor released yet and
/// its backend has the export.
pub proof fn release_is_due_once(console: &ConsoleShared)
    ensures
        console.release_due() <==> {
            &&& console@.close == CloseState::NotRequested || console@.close
                == CloseState::Requested
            &&& !console@.released
            &&& console.spec_backend().spec_api().release is Some
        },
{
}

/// A disconnect is presented as the end of the session, with the failure inside
/// it; any other failure is presented as it is.
pub proof fn disconnects_end_the_session(err: IoError, shown: IoError)
    requires
        session_end(err, shown),
    ensures
        err.is_disconnect() ==> {
            &&& shown.kind == IoErrorKind::NotConnected
            &&& shown.code is None
            &&& shown.message@ == err.message@
            &&& shown.inner is Some
            &&& *shown.inner->0 == err
        },
        !err.is_disconnect() ==> shown == err,
{
}

/// What says that a console is closed says it in one way.
pub proof fn closed_consoles_are_not_connected(err: IoError)
    ensures
        says_closed(err) <==> {
            &&& err.kind == IoErrorKind::NotConnected
            &&& err.code is None
            &&& err.message@ == "the pseudoconsole has been closed"@
            &&& err.inner is None
        },
{
}

} // verus!
