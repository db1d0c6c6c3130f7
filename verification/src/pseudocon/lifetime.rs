//! What holds of a pseudoconsole over its whole life, whatever happens to it
//! and in whatever order.
//!
//! A life is a sequence of [`Event`]s, each of them one critical section of a
//! [`ConsoleShared`](super::ConsoleShared): the events are those sections, and
//! [`Life::after`] moves the state by the very functions that their contracts
//! name. Beside the state a [`Life`] counts the `ClosePseudoConsole` calls, and
//! the [`CloseClaim`](super::CloseClaim)s that are neither given up nor taken back.

use vstd::prelude::*;

use super::{final_close_of, CloseState, FinalClose, ReaderState, State};
use crate::size::Size;

verus! {

/// One thing that happens to a pseudoconsole.
pub enum Event {
    /// `ReleasePseudoConsole` is due; if it is called, this is whether it
    /// succeeds.
    Release(bool),
    /// `ResizePseudoConsole` is wanted; if it is called, this is whether it
    /// succeeds.
    Resize(Size, bool),
    /// `ClearPseudoConsole` is wanted.
    Clear,
    /// A process is to be attached to the console.
    Attach,
    /// The reader observes end-of-file.
    ReaderEof,
    /// The read end is dropped.
    ReaderClosed,
    /// A close is requested.
    CloseRequest,
    /// A close is claimed for a worker that stands ready.
    DetachedClaim,
    /// The worker of an outstanding claim is told to close, and does.
    HandoffDelivered,
    /// The worker of an outstanding claim cannot be told.
    HandoffFailed,
    /// The last owner goes away; where its close needs a thread, this is
    /// whether one could be started.
    Dropped(bool),
}

/// A pseudoconsole and what was done with its handle.
pub struct Life {
    /// The lifecycle state.
    pub state: State,
    /// Claims whose worker has not been told yet.
    pub outstanding: nat,
    /// `ClosePseudoConsole` calls.
    pub closes: nat,
    /// Whether the last owner is gone.
    pub dropped: bool,
}

impl Life {
    /// The life of a console that was just created.
    pub open spec fn begin(size: Size) -> Life {
        Life { state: State::fresh(size), outstanding: 0, closes: 0, dropped: false }
    }

    /// Moves to `state`, closing if that claims the close.
    pub open spec fn enter(self, state: State) -> Life {
        Life {
            state,
            closes: if self.state.claims_close(state) {
                self.closes + 1
            } else {
                self.closes
            },
            ..self
        }
    }

    /// Whether `event` calls into the console through its handle, the close
    /// itself left aside.
    pub open spec fn uses_handle(self, event: Event) -> bool {
        &&& !self.dropped
        &&& self.state.close != CloseState::Done
        &&& match event {
            Event::Release(_) => !self.state.released,
            Event::Resize(_, _) => true,
            Event::Clear => true,
            Event::Attach => true,
            _ => false,
        }
    }

    /// Whether `event` can happen: nothing reaches a console whose last owner
    /// is gone, a worker can be told only of a claim, and whoever holds a claim
    /// is still an owner.
    pub open spec fn admits(self, event: Event) -> bool {
        &&& !self.dropped
        &&& match event {
            Event::HandoffDelivered => self.outstanding > 0,
            Event::HandoffFailed => self.outstanding > 0,
            Event::Dropped(_) => self.outstanding == 0,
            _ => true,
        }
    }

    /// The life after one more event.
    pub open spec fn after(self, event: Event) -> Life {
        if !self.admits(event) {
            self
        } else {
            match event {
                Event::Release(succeeded) => if self.uses_handle(event) {
                    Life { state: self.state.after_release(succeeded), ..self }
                } else {
                    self
                },
                Event::Resize(size, succeeded) => if self.uses_handle(event) && succeeded {
                    Life { state: State { size, ..self.state }, ..self }
                } else {
                    self
                },
                Event::Clear => self,
                Event::Attach => self,
                Event::ReaderEof => self.enter(self.state.after_reader_eof()),
                Event::ReaderClosed => self.enter(self.state.after_reader_closed()),
                Event::CloseRequest => self.enter(self.state.after_close_request()),
                Event::DetachedClaim => if self.state.close == CloseState::Done
                    || self.state.released {
                    self.enter(self.state.after_detached_claim())
                } else {
                    Life {
                        state: self.state.after_detached_claim(),
                        outstanding: self.outstanding + 1,
                        ..self
                    }
                },
                Event::HandoffDelivered => Life {
                    outstanding: (self.outstanding - 1) as nat,
                    closes: self.closes + 1,
                    ..self
                },
                Event::HandoffFailed => Life {
                    outstanding: (self.outstanding - 1) as nat,
                    state: self.state.after_failed_handoff(),
                    ..self
                },
                Event::Dropped(started) => Life {
                    state: State { close: CloseState::Done, ..self.state },
                    closes: match final_close_of(self.state) {
                        FinalClose::Nothing => self.closes,
                        FinalClose::Inline => self.closes + 1,
                        FinalClose::Detached => if started {
                            self.closes + 1
                        } else {
                            self.closes
                        },
                    },
                    dropped: true,
                    ..self
                },
            }
        }
    }

    /// The life after a whole sequence of events.
    pub open spec fn run(self, events: Seq<Event>) -> Life
        decreases events.len(),
    {
        if events.len() == 0 {
            self
        } else {
            self.run(events.drop_last()).after(events.last())
        }
    }

    /// What every life keeps: the close was called or handed over exactly if it
    /// was claimed, save for a last owner that could not start a thread.
    pub open spec fn accounted(self) -> bool {
        &&& self.state.consistent()
        &&& self.closes + self.outstanding <= 1
        &&& self.state.close != CloseState::Done ==> self.closes + self.outstanding == 0
        &&& self.state.close == CloseState::Done && !self.dropped ==> self.closes
            + self.outstanding == 1
        &&& self.dropped ==> self.outstanding == 0 && self.state.close == CloseState::Done
    }
}

/// One event keeps the account.
proof fn lemma_after_accounted(life: Life, event: Event)
    requires
        life.accounted(),
    ensures
        life.after(event).accounted(),
{
}

/// Every life keeps the account.
pub proof fn every_life_is_accounted_for(size: Size, events: Seq<Event>)
    ensures
        Life::begin(size).run(events).accounted(),
    decreases events.len(),
{
    if events.len() > 0 {
        every_life_is_accounted_for(size, events.drop_last());
        lemma_after_accounted(Life::begin(size).run(events.drop_last()), events.last());
    }
}

/// `ClosePseudoConsole` is never called twice, whatever happens and in whatever
/// order.
pub proof fn close_is_called_at_most_once(size: Size, events: Seq<Event>)
    ensures
        Life::begin(size).run(events).closes <= 1,
{
    every_life_is_accounted_for(size, events);
}

/// When the last owner goes away, `ClosePseudoConsole` has been called exactly
/// once. The only exception is a legacy console that nobody closed and whose
/// reader never saw end-of-file, if the thread for that close cannot be
/// started: then the handle is leaked rather than waited for.
pub proof fn close_is_called_exactly_once_in_the_end(
    size: Size,
    events: Seq<Event>,
    started: bool,
)
    ensures
        ({
            let before = Life::begin(size).run(events);
            let after = before.after(Event::Dropped(started));
            before.admits(Event::Dropped(started)) ==> {
                &&& after.dropped
                &&& after.closes == 1 <==> (started || final_close_of(before.state)
                    != FinalClose::Detached)
                &&& after.closes == 0 <==> (!started && final_close_of(before.state)
                    == FinalClose::Detached)
            }
        }),
{
    every_life_is_accounted_for(size, events);
}

/// The handle is never used once it was closed or its close was handed over: not
/// to release, to resize, to clear, or to attach a process.
pub proof fn handle_is_not_used_after_close(size: Size, events: Seq<Event>, event: Event)
    ensures
        ({
            let life = Life::begin(size).run(events);
            life.uses_handle(event) ==> life.closes == 0 && life.outstanding == 0
        }),
{
    every_life_is_accounted_for(size, events);
}

/// How far the reader is.
pub open spec fn progress(reader: ReaderState) -> int {
    match reader {
        ReaderState::Open => 0,
        ReaderState::Drained => 1,
        ReaderState::Closed => 2,
    }
}

/// The reader only moves forward, and `Closed` is where it stops.
pub proof fn reader_only_moves_forward(life: Life, event: Event)
    ensures
        progress(life.state.reader) <= progress(life.after(event).state.reader),
{
}

/// Released mode is entered at most once and never left, and a failed attempt
/// is never forgotten.
pub proof fn release_is_permanent(life: Life, event: Event)
    ensures
        life.state.released ==> life.after(event).state.released,
        life.state.release_failed ==> life.after(event).state.release_failed,
{
}

/// The recorded size changes only to a size that the console just accepted.
pub proof fn size_follows_accepted_resizes(life: Life, event: Event)
    ensures
        life.after(event).state.size != life.state.size ==> event == Event::Resize(
            life.after(event).state.size,
            true,
        ),
        (life.uses_handle(event) && event is Resize && event->Resize_1)
            ==> life.after(event).state.size == event->Resize_0,
{
}

/// A deferred close runs at the reader's next transition, whichever it is.
pub proof fn deferred_close_runs_with_the_reader(size: Size, events: Seq<Event>, event: Event)
    ensures
        ({
            let life = Life::begin(size).run(events);
            let after = life.after(event);
            (life.state.close == CloseState::Requested && !life.dropped && (event is ReaderEof
                || event is ReaderClosed)) ==> life.closes == 0 && after.closes == 1
        }),
{
    every_life_is_accounted_for(size, events);
}

/// Closing has no effect a second time: once claimed, and with no worker still
/// to be told, neither a request nor a reader's end changes the close again.
pub proof fn close_requests_after_the_close_do_nothing(life: Life, event: Event)
    requires
        life.state.close == CloseState::Done,
        event is CloseRequest || event is DetachedClaim || event is ReaderEof
            || event is ReaderClosed,
    ensures
        life.after(event).closes == life.closes,
        life.after(event).outstanding == life.outstanding,
        life.after(event).state.close == CloseState::Done,
{
}

/// A claim that does not reach its worker leaves the console as it was, open to
/// another request: the reader, the mode and the size are untouched.
pub proof fn failed_handoff_is_retryable(life: Life)
    requires
        life.state.consistent(),
        life.state.close != CloseState::Done,
        !life.state.released,
        !life.dropped,
    ensures
        life.after(Event::DetachedClaim).after(Event::HandoffFailed) == life,
{
    assert(life.state.close == CloseState::NotRequested);
}

/// A close on the reader's own thread, on the thread that retires the input, or
/// in a destructor never waits for a reader: it runs only where the console was
/// released or where the read end is drained or dropped, and a dropped read end
/// alone is not enough without a release or end-of-file.
pub proof fn closes_that_must_not_block_are_prompt(
    size: Size,
    events: Seq<Event>,
    event: Event,
)
    ensures
        ({
            let life = Life::begin(size).run(events);
            let after = life.after(event);
            &&& (event is ReaderEof && after.closes > life.closes) ==> after.state.reader
                != ReaderState::Open
            &&& (event is ReaderClosed && after.closes > life.closes) ==> life.state.released
            &&& (event is DetachedClaim && after.closes > life.closes) ==> life.state.released
            &&& (event == Event::Dropped(false) && after.closes > life.closes)
                ==> life.state.released || life.state.reader == ReaderState::Drained
        }),
{
    every_life_is_accounted_for(size, events);
}

} // verus!
