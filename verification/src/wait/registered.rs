//! A thread-pool wait on a process, and who reclaims it.
//!
//! The operating system runs a callback at most once, when the process exits.
//! The callback publishes the exit code and wakes the waiting task, and waking
//! may re-enter the task, observe the result, and drop the wait before the
//! callback is over. The state below is the handshake between the two: each
//! method is one critical section of its lock.

use vstd::prelude::*;

use crate::io_error::IoError;
use crate::win32::ERROR_IO_PENDING;

verus! {

/// The state that a registered wait shares with its callback.
///
/// Wakers are told apart by number: equal numbers wake the same task.
#[derive(Debug)]
pub struct RegisteredWaitState {
    result: Option<Result<u32, IoError>>,
    waker: Option<u64>,
    callback_active: bool,
    owner_dropping: bool,
    cleanup_after_callback: bool,
}

/// The flags of the handshake.
pub struct Handshake {
    /// The callback is past its entry and may be running a task.
    pub callback_active: bool,
    /// The owner is going away: a callback that has not entered must not.
    pub owner_dropping: bool,
    /// The callback reclaims the context at its end.
    pub cleanup_after_callback: bool,
}

impl Handshake {
    /// The handshake of a wait that was just registered.
    pub open spec fn fresh() -> Handshake {
        Handshake { callback_active: false, owner_dropping: false, cleanup_after_callback: false }
    }

    /// After the callback asked to enter.
    pub open spec fn after_enter(self) -> Handshake {
        if self.owner_dropping {
            self
        } else {
            Handshake { callback_active: true, ..self }
        }
    }

    /// After the callback left.
    pub open spec fn after_leave(self) -> Handshake {
        Handshake { callback_active: false, ..self }
    }

    /// After the owner started to go away.
    pub open spec fn after_owner_drop(self) -> Handshake {
        Handshake { owner_dropping: true, ..self }
    }

    /// After the owner's request to unregister an active callback returned.
    pub open spec fn after_request(self, transfers: bool) -> Handshake {
        Handshake { cleanup_after_callback: transfers, ..self }
    }
}

impl View for RegisteredWaitState {
    type V = Handshake;

    closed spec fn view(&self) -> Handshake {
        Handshake {
            callback_active: self.callback_active,
            owner_dropping: self.owner_dropping,
            cleanup_after_callback: self.cleanup_after_callback,
        }
    }
}

/// How the owner unregisters its wait.
#[derive(Debug, Clone, Copy, PartialEq, Eq, Structural)]
#[must_use]
pub enum Unregister {
    /// Without waiting, while the state stays locked: the callback is active
    /// and may be waiting for this very owner.
    Request,
    /// Waiting for a callback that raced the handshake, which returns promptly.
    Blocking,
}

impl RegisteredWaitState {
    /// The exit code that was published and not yet observed.
    pub closed spec fn spec_result(&self) -> Option<Result<u32, IoError>> {
        self.result
    }

    /// The waker to call when the process exits.
    pub closed spec fn spec_waker(&self) -> Option<u64> {
        self.waker
    }

    /// The state of a wait that was just registered.
    pub fn new() -> (state: RegisteredWaitState)
        ensures
            state@ == Handshake::fresh(),
            state.spec_result() is None,
            state.spec_waker() is None,
    {
        RegisteredWaitState {
            result: None,
            waker: None,
            callback_active: false,
            owner_dropping: false,
            cleanup_after_callback: false,
        }
    }

    /// Polls for the exit code: takes it if it was published, and remembers
    /// `waker` if not.
    pub fn poll(&mut self, waker: u64) -> (ready: Option<Result<u32, IoError>>)
        ensures
            final(self)@ == old(self)@,
            ready == old(self).spec_result(),
            final(self).spec_result() is None,
            final(self).spec_waker() == (if ready is Some {
                old(self).spec_waker()
            } else {
                Some(waker)
            }),
    {
        let ready = self.result.take();
        if ready.is_none() && should_replace_waker(self.waker, waker) {
            self.waker = Some(waker);
        }
        ready
    }

    /// Lets the callback enter, unless the owner is going away.
    pub fn callback_enter(&mut self) -> (entered: bool)
        ensures
            final(self)@ == old(self)@.after_enter(),
            entered == !old(self)@.owner_dropping,
            final(self).spec_result() == old(self).spec_result(),
            final(self).spec_waker() == old(self).spec_waker(),
    {
        if self.owner_dropping {
            return false;
        }
        self.callback_active = true;
        true
    }

    /// Publishes the exit code and returns the waker to call, neither of them
    /// for an owner that is going away.
    pub fn callback_publish(&mut self, result: Result<u32, IoError>) -> (waker: Option<u64>)
        ensures
            final(self)@ == old(self)@,
            old(self)@.owner_dropping ==> {
                &&& waker is None
                &&& final(self).spec_result() == old(self).spec_result()
                &&& final(self).spec_waker() == old(self).spec_waker()
            },
            !old(self)@.owner_dropping ==> {
                &&& waker == old(self).spec_waker()
                &&& final(self).spec_result() == Some(result)
                &&& final(self).spec_waker() is None
            },
    {
        if self.owner_dropping {
            None
        } else {
            self.result = Some(result);
            self.waker.take()
        }
    }

    /// Ends the callback; returns whether it must reclaim the context.
    pub fn callback_leave(&mut self) -> (reclaim: bool)
        requires
            old(self)@.callback_active,
        ensures
            final(self)@ == old(self)@.after_leave(),
            reclaim == old(self)@.cleanup_after_callback,
            final(self).spec_result() == old(self).spec_result(),
            final(self).spec_waker() == old(self).spec_waker(),
    {
        self.callback_active = false;
        self.cleanup_after_callback
    }

    /// Records that the owner is going away, which it does once, and decides how
    /// it unregisters.
    pub fn owner_drop(&mut self) -> (how: Unregister)
        requires
            !old(self)@.owner_dropping,
        ensures
            final(self)@ == old(self)@.after_owner_drop(),
            how == (if old(self)@.callback_active {
                Unregister::Request
            } else {
                Unregister::Blocking
            }),
            final(self).spec_result() == old(self).spec_result(),
            final(self).spec_waker() == old(self).spec_waker(),
    {
        self.owner_dropping = true;
        if self.callback_active {
            Unregister::Request
        } else {
            Unregister::Blocking
        }
    }

    /// Records the outcome of [`Unregister::Request`]; returns whether the
    /// callback now reclaims the context. If it does not, nobody may: the
    /// context is retained rather than freed under a callback.
    pub fn unregister_requested(&mut self, result: i32, error_code: Option<i32>) -> (transferred:
        bool)
        requires
            old(self)@.owner_dropping,
            old(self)@.callback_active,
        ensures
            transferred == cleanup_transfers(result, error_code),
            final(self)@ == old(self)@.after_request(
                old(self)@.cleanup_after_callback || transferred,
            ),
            final(self).spec_result() == old(self).spec_result(),
            final(self).spec_waker() == old(self).spec_waker(),
    {
        if callback_unregister_transfers_cleanup(result, error_code) {
            self.cleanup_after_callback = true;
            true
        } else {
            false
        }
    }
}

/// Returns whether `candidate` has to replace the registered waker.
pub fn should_replace_waker(registered: Option<u64>, candidate: u64) -> (replace: bool)
    ensures
        replace == (registered != Some(candidate)),
{
    match registered {
        Some(waker) => waker != candidate,
        None => true,
    }
}

/// Whether a nonblocking unregistration hands reclamation to the callback: it
/// succeeded, or it reports that a callback is still running.
pub open spec fn cleanup_transfers(result: i32, error_code: Option<i32>) -> bool {
    result != 0 || (error_code is Some && error_code->0 == ERROR_IO_PENDING)
}

/// Returns whether a nonblocking unregistration hands reclamation to the
/// callback.
pub fn callback_unregister_transfers_cleanup(result: i32, error_code: Option<i32>) -> (transfers:
    bool)
    ensures
        transfers == cleanup_transfers(result, error_code),
{
    if result != 0 {
        return true;
    }
    match error_code {
        Some(code) => code == ERROR_IO_PENDING as i32,
        None => false,
    }
}

/// Where the callback is.
pub enum CallbackPhase {
    /// It was not run yet.
    Pending,
    /// It is past its entry and not at its end.
    Active,
    /// It returned, or it was refused entry.
    Over,
}

/// Where the owner is.
pub enum OwnerPhase {
    /// It holds the wait.
    Alive,
    /// It asked for a blocking unregistration, which has not returned.
    Unregistering,
    /// It is gone.
    Gone,
}

/// One critical section, or one call into the operating system.
pub enum HandshakeEvent {
    /// The callback asks to enter.
    Enter,
    /// The callback ends.
    Leave,
    /// The owner goes away; if the callback is active, this is whether the
    /// request to unregister it hands reclamation over.
    OwnerDrop(bool),
    /// The blocking unregistration returns, successfully or not.
    Unregistered(bool),
}

/// A registered wait and what happened to its context.
pub struct Registration {
    /// The flags of the handshake.
    pub state: Handshake,
    /// Where the callback is.
    pub callback: CallbackPhase,
    /// Where the owner is.
    pub owner: OwnerPhase,
    /// How often the context was reclaimed.
    pub reclaims: nat,
    /// Whether an unregistration failed, which retains the context.
    pub retained: bool,
}

impl Registration {
    /// A wait that was just registered.
    pub open spec fn begin() -> Registration {
        Registration {
            state: Handshake::fresh(),
            callback: CallbackPhase::Pending,
            owner: OwnerPhase::Alive,
            reclaims: 0,
            retained: false,
        }
    }

    /// Whether `event` can happen. The callback runs at most once, and not
    /// after a successful blocking unregistration, which in turn returns only
    /// while no callback is running.
    pub open spec fn admits(self, event: HandshakeEvent) -> bool {
        match event {
            HandshakeEvent::Enter => self.callback is Pending && self.reclaims == 0,
            HandshakeEvent::Leave => self.callback is Active,
            HandshakeEvent::OwnerDrop(_) => self.owner is Alive,
            HandshakeEvent::Unregistered(_) => self.owner is Unregistering && !(
            self.callback is Active),
        }
    }

    /// After one more event.
    pub open spec fn after(self, event: HandshakeEvent) -> Registration {
        if !self.admits(event) {
            self
        } else {
            match event {
                HandshakeEvent::Enter => Registration {
                    state: self.state.after_enter(),
                    callback: if self.state.owner_dropping {
                        CallbackPhase::Over
                    } else {
                        CallbackPhase::Active
                    },
                    ..self
                },
                HandshakeEvent::Leave => Registration {
                    state: self.state.after_leave(),
                    callback: CallbackPhase::Over,
                    reclaims: if self.state.cleanup_after_callback {
                        self.reclaims + 1
                    } else {
                        self.reclaims
                    },
                    ..self
                },
                HandshakeEvent::OwnerDrop(transfers) => if self.state.callback_active {
                    Registration {
                        state: self.state.after_owner_drop().after_request(transfers),
                        owner: OwnerPhase::Gone,
                        retained: !transfers,
                        ..self
                    }
                } else {
                    Registration {
                        state: self.state.after_owner_drop(),
                        owner: OwnerPhase::Unregistering,
                        ..self
                    }
                },
                HandshakeEvent::Unregistered(succeeded) => Registration {
                    owner: OwnerPhase::Gone,
                    reclaims: if succeeded {
                        self.reclaims + 1
                    } else {
                        self.reclaims
                    },
                    retained: !succeeded,
                    ..self
                },
            }
        }
    }

    /// After a whole sequence of events.
    pub open spec fn run(self, events: Seq<HandshakeEvent>) -> Registration
        decreases events.len(),
    {
        if events.len() == 0 {
            self
        } else {
            self.run(events.drop_last()).after(events.last())
        }
    }

    /// What every history keeps.
    pub open spec fn sound(self) -> bool {
        &&& self.reclaims <= 1
        &&& self.state.callback_active <==> self.callback is Active
        &&& self.state.owner_dropping <==> !(self.owner is Alive)
        &&& self.owner is Unregistering ==> !(self.callback is Active) && self.reclaims == 0
            && !self.retained
        &&& self.owner is Alive ==> self.reclaims == 0 && !self.retained
            && !self.state.cleanup_after_callback
        &&& self.callback is Active ==> self.reclaims == 0
        &&& self.state.cleanup_after_callback ==> self.owner is Gone && !self.retained
            && !(self.callback is Pending)
        &&& self.owner is Gone && !(self.callback is Active) ==> self.reclaims == (if self.retained {
            0nat
        } else {
            1
        })
        &&& self.owner is Gone && self.callback is Active ==> (self.retained
            <==> !self.state.cleanup_after_callback)
        &&& self.retained ==> self.owner is Gone && self.reclaims == 0
    }
}

/// Every history keeps the handshake sound.
pub proof fn every_registration_is_sound(events: Seq<HandshakeEvent>)
    ensures
        Registration::begin().run(events).sound(),
    decreases events.len(),
{
    if events.len() > 0 {
        every_registration_is_sound(events.drop_last());
        let before = Registration::begin().run(events.drop_last());
        assert(before.after(events.last()).sound());
    }
}

/// The context is reclaimed at most once, and never while the callback runs or
/// before the owner is gone.
pub proof fn context_is_reclaimed_at_most_once(events: Seq<HandshakeEvent>)
    ensures
        ({
            let registration = Registration::begin().run(events);
            &&& registration.reclaims <= 1
            &&& registration.reclaims == 1 ==> registration.owner is Gone && !(
            registration.callback is Active)
        }),
{
    every_registration_is_sound(events);
}

/// Once the owner is gone and no callback is running, the context has been
/// reclaimed, unless an unregistration failed and it is retained for safety.
pub proof fn context_is_reclaimed_in_the_end(events: Seq<HandshakeEvent>)
    ensures
        ({
            let registration = Registration::begin().run(events);
            (registration.owner is Gone && !(registration.callback is Active)) ==> (
            registration.reclaims == 1 <==> !registration.retained)
        }),
{
    every_registration_is_sound(events);
}

/// A blocking unregistration never waits for a callback that runs tasks: while
/// the owner waits, the callback has not entered and cannot.
pub proof fn blocking_unregistration_never_deadlocks(events: Seq<HandshakeEvent>)
    ensures
        ({
            let registration = Registration::begin().run(events);
            registration.owner is Unregistering ==> {
                &&& !(registration.callback is Active)
                &&& !(registration.after(HandshakeEvent::Enter).callback is Active)
            }
        }),
{
    every_registration_is_sound(events);
}

/// Each step of the handshake sets its own flag and leaves the others: a callback
/// enters unless the owner is on its way out, and cleanup is left to it exactly
/// where that was asked for.
pub proof fn handshake_steps_set_one_flag(h: Handshake, transfers: bool)
    ensures
        h.owner_dropping ==> h.after_enter() == h,
        !h.owner_dropping ==> h.after_enter() == (Handshake { callback_active: true, ..h }),
        h.after_leave() == (Handshake { callback_active: false, ..h }),
        h.after_owner_drop() == (Handshake { owner_dropping: true, ..h }),
        h.after_request(transfers).cleanup_after_callback == transfers,
        h.after_request(transfers).callback_active == h.callback_active,
        h.after_request(transfers).owner_dropping == h.owner_dropping,
        !Handshake::fresh().callback_active,
        !Handshake::fresh().owner_dropping,
        !Handshake::fresh().cleanup_after_callback,
{
}

/// Cleanup goes over to the callback exactly where unregistering succeeded or is
/// pending.
pub proof fn pending_unregistrations_transfer_cleanup(result: i32, error_code: Option<i32>)
    ensures
        cleanup_transfers(result, error_code) <==> result != 0 || error_code == Some(997i32),
{
}

} // verus!
