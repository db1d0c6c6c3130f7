//! Root-bounded completion of a managed session.
//!
//! A reader thread drains the output while the root runs. Once the root's status
//! is known, what remains of its tree is terminated, the input is retired, and
//! the tail of the output is drained to end-of-file. [`Collector`] decides what
//! comes next; whoever runs it performs each [`CollectAction`] and reports what
//! came of it.

use vstd::prelude::*;

use crate::api::SessionOutput;
use crate::error::{Error, ErrorContext, Result};
use crate::io_error::IoError;
use crate::status::ExitStatus;

verus! {

/// How long to wait for the reader between two polls of the child, in
/// milliseconds.
pub const READER_WAIT_MS: u64 = 10;

/// What the reader does with the output: keep it, or only drain it.
#[derive(Debug)]
pub struct OutputSink {
    keep: bool,
    bytes: Vec<u8>,
}

impl OutputSink {
    /// Whether the output is kept.
    pub closed spec fn spec_keep(&self) -> bool {
        self.keep
    }

    /// What was kept so far.
    pub closed spec fn spec_bytes(&self) -> Seq<u8> {
        self.bytes@
    }

    /// Creates an empty sink, which keeps the output if `keep` says so.
    pub fn new(keep: bool) -> (sink: OutputSink)
        ensures
            sink.spec_keep() == keep,
            sink.spec_bytes() == Seq::<u8>::empty(),
    {
        OutputSink { keep, bytes: Vec::new() }
    }

    /// Takes what was read.
    pub fn accept(&mut self, chunk: &[u8])
        ensures
            final(self).spec_keep() == old(self).spec_keep(),
            final(self).spec_bytes() == (if old(self).spec_keep() {
                old(self).spec_bytes() + chunk@
            } else {
                old(self).spec_bytes()
            }),
    {
        if self.keep {
            self.bytes.extend_from_slice(chunk);
            assert(self.bytes@ =~= old(self).bytes@ + chunk@);
        }
    }

    /// Returns what was kept.
    pub fn into_bytes(self) -> (bytes: Vec<u8>)
        ensures
            bytes@ == self.spec_bytes(),
    {
        self.bytes
    }
}

/// What a collection needs done next.
#[derive(Debug, Clone, Copy, PartialEq, Eq, Structural)]
#[must_use]
pub enum CollectAction {
    /// Poll the child for its exit status.
    PollChild,
    /// Wait [`READER_WAIT_MS`] for the reader to signal that it is done.
    AwaitReader,
    /// Join the reader thread.
    JoinReader,
    /// Wait for the child to exit.
    WaitChild,
    /// Terminate the process tree.
    KillTree,
    /// Drop the child and its job: where the termination failed, that is the last
    /// chance to end a descendant that keeps the output open.
    RetireChild,
    /// Drop the input.
    RetireInput,
    /// Drop the controller.
    RetireController,
    /// Take the result.
    Finish,
}

/// A collection in progress.
#[derive(Debug)]
pub struct Collector {
    next: CollectAction,
    output: Option<core::result::Result<Vec<u8>, IoError>>,
    status: Option<Result<ExitStatus>>,
    killed: Option<Result<()>>,
}

/// What a [`Collector`] has learned.
pub struct Collection {
    /// What has to be done next.
    pub next: CollectAction,
    /// What the reader returned, once it was joined.
    pub output: Option<core::result::Result<Vec<u8>, IoError>>,
    /// What is known of the root's status.
    pub status: Option<Result<ExitStatus>>,
    /// Whether the tree could be terminated, once that was tried.
    pub killed: Option<Result<()>>,
}

impl View for Collector {
    type V = Collection;

    closed spec fn view(&self) -> Collection {
        Collection {
            next: self.next,
            output: self.output,
            status: self.status,
            killed: self.killed,
        }
    }
}

impl Collection {
    /// A collection that was just begun.
    pub open spec fn begin() -> Collection {
        Collection { next: CollectAction::PollChild, output: None, status: None, killed: None }
    }

    /// After the child was polled: its status, or a failure to learn it, ends the
    /// waiting.
    pub open spec fn after_poll(self, polled: Result<Option<ExitStatus>>) -> Collection {
        match polled {
            Ok(Some(status)) => Collection {
                next: CollectAction::KillTree,
                status: Some(Ok(status)),
                ..self
            },
            Ok(None) => Collection { next: CollectAction::AwaitReader, ..self },
            Err(err) => Collection {
                next: CollectAction::KillTree,
                status: Some(Err(err)),
                ..self
            },
        }
    }

    /// After the wait for the reader: one that is done, or gone, is joined.
    pub open spec fn after_reader_wait(self, done: bool) -> Collection {
        Collection {
            next: if done {
                CollectAction::JoinReader
            } else {
                CollectAction::PollChild
            },
            ..self
        }
    }

    /// After the reader was joined. A reader that ended before the root did means
    /// waiting for the root; one that failed means giving up on its status. A
    /// reader that was joined after the tree was terminated is the last step.
    pub open spec fn after_join(
        self,
        output: core::result::Result<Vec<u8>, IoError>,
    ) -> Collection {
        Collection {
            next: if self.killed is Some {
                CollectAction::Finish
            } else if output is Ok {
                CollectAction::WaitChild
            } else {
                CollectAction::KillTree
            },
            output: Some(output),
            ..self
        }
    }

    /// After the wait for the root.
    pub open spec fn after_wait(self, waited: Result<ExitStatus>) -> Collection {
        Collection { next: CollectAction::KillTree, status: Some(waited), ..self }
    }

    /// After the tree was terminated, or could not be.
    pub open spec fn after_kill(self, killed: Result<()>) -> Collection {
        Collection { next: CollectAction::RetireChild, killed: Some(killed), ..self }
    }

    /// After the child and its job were dropped.
    pub open spec fn after_child_retired(self) -> Collection {
        Collection { next: CollectAction::RetireInput, ..self }
    }

    /// After the input was dropped.
    pub open spec fn after_input_retired(self) -> Collection {
        Collection { next: CollectAction::RetireController, ..self }
    }

    /// After the controller was dropped: a reader that was not joined yet is.
    pub open spec fn after_controller_retired(self) -> Collection {
        Collection {
            next: if self.output is Some {
                CollectAction::Finish
            } else {
                CollectAction::JoinReader
            },
            ..self
        }
    }

    /// What the fields hold at each point.
    pub open spec fn consistent(self) -> bool {
        match self.next {
            CollectAction::PollChild => self.output is None && self.status is None
                && self.killed is None,
            CollectAction::AwaitReader => self.output is None && self.status is None
                && self.killed is None,
            CollectAction::JoinReader => self.output is None && (self.status is None
                <==> self.killed is None),
            CollectAction::WaitChild => self.output is Some && self.output->0 is Ok
                && self.status is None && self.killed is None,
            CollectAction::KillTree => self.killed is None && self.settled(),
            CollectAction::RetireChild => self.killed is Some && self.settled(),
            CollectAction::RetireInput => self.killed is Some && self.settled(),
            CollectAction::RetireController => self.killed is Some && self.settled(),
            CollectAction::Finish => self.killed is Some && self.output is Some
                && self.settled(),
        }
    }

    /// Whether the root's status is known, or given up because the reader failed.
    pub open spec fn settled(self) -> bool {
        self.status is Some || (self.output is Some && self.output->0 is Err)
    }
}

impl Collector {
    #[verifier::type_invariant]
    spec fn inv(self) -> bool {
        self@.consistent()
    }

    /// Begins a collection.
    pub fn new() -> (collector: Collector)
        ensures
            collector@ == Collection::begin(),
    {
        Collector { next: CollectAction::PollChild, output: None, status: None, killed: None }
    }

    /// Returns what has to be done next.
    pub fn action(&self) -> (action: CollectAction)
        ensures
            action == self@.next,
    {
        self.next
    }

    /// Reports the poll of the child.
    pub fn polled(self, polled: Result<Option<ExitStatus>>) -> (collector: Collector)
        requires
            self@.next == CollectAction::PollChild,
        ensures
            collector@ == self@.after_poll(polled),
    {
        proof {
            use_type_invariant(&self);
        }
        match polled {
            Ok(Some(status)) => Collector {
                next: CollectAction::KillTree,
                output: self.output,
                status: Some(Ok(status)),
                killed: self.killed,
            },
            Ok(None) => Collector {
                next: CollectAction::AwaitReader,
                output: self.output,
                status: self.status,
                killed: self.killed,
            },
            Err(err) => Collector {
                next: CollectAction::KillTree,
                output: self.output,
                status: Some(Err(err)),
                killed: self.killed,
            },
        }
    }

    /// Reports the wait for the reader: whether it signalled, or is gone.
    pub fn reader_waited(self, done: bool) -> (collector: Collector)
        requires
            self@.next == CollectAction::AwaitReader,
        ensures
            collector@ == self@.after_reader_wait(done),
    {
        proof {
            use_type_invariant(&self);
        }
        Collector {
            next: if done {
                CollectAction::JoinReader
            } else {
                CollectAction::PollChild
            },
            output: self.output,
            status: self.status,
            killed: self.killed,
        }
    }

    /// Reports what the reader returned.
    pub fn joined(self, output: core::result::Result<Vec<u8>, IoError>) -> (collector: Collector)
        requires
            self@.next == CollectAction::JoinReader,
        ensures
            collector@ == self@.after_join(output),
    {
        proof {
            use_type_invariant(&self);
        }
        let next = if self.killed.is_some() {
            CollectAction::Finish
        } else if output.is_ok() {
            CollectAction::WaitChild
        } else {
            CollectAction::KillTree
        };
        Collector { next, output: Some(output), status: self.status, killed: self.killed }
    }

    /// Reports the wait for the child.
    pub fn waited(self, waited: Result<ExitStatus>) -> (collector: Collector)
        requires
            self@.next == CollectAction::WaitChild,
        ensures
            collector@ == self@.after_wait(waited),
    {
        proof {
            use_type_invariant(&self);
        }
        Collector {
            next: CollectAction::KillTree,
            output: self.output,
            status: Some(waited),
            killed: self.killed,
        }
    }

    /// Reports the termination of the tree.
    pub fn killed(self, killed: Result<()>) -> (collector: Collector)
        requires
            self@.next == CollectAction::KillTree,
        ensures
            collector@ == self@.after_kill(killed),
    {
        proof {
            use_type_invariant(&self);
        }
        Collector {
            next: CollectAction::RetireChild,
            output: self.output,
            status: self.status,
            killed: Some(killed),
        }
    }

    /// Reports that the child and its job were dropped.
    pub fn child_retired(self) -> (collector: Collector)
        requires
            self@.next == CollectAction::RetireChild,
        ensures
            collector@ == self@.after_child_retired(),
    {
        proof {
            use_type_invariant(&self);
        }
        Collector {
            next: CollectAction::RetireInput,
            output: self.output,
            status: self.status,
            killed: self.killed,
        }
    }

    /// Reports that the input was dropped.
    pub fn input_retired(self) -> (collector: Collector)
        requires
            self@.next == CollectAction::RetireInput,
        ensures
            collector@ == self@.after_input_retired(),
    {
        proof {
            use_type_invariant(&self);
        }
        Collector {
            next: CollectAction::RetireController,
            output: self.output,
            status: self.status,
            killed: self.killed,
        }
    }

    /// Reports that the controller was dropped.
    pub fn controller_retired(self) -> (collector: Collector)
        requires
            self@.next == CollectAction::RetireController,
        ensures
            collector@ == self@.after_controller_retired(),
    {
        proof {
            use_type_invariant(&self);
        }
        let next = if self.output.is_some() {
            CollectAction::Finish
        } else {
            CollectAction::JoinReader
        };
        Collector { next, output: self.output, status: self.status, killed: self.killed }
    }

    /// Returns the output and the root's status.
    ///
    /// # Errors
    ///
    /// The failure of the reader; else that of learning the root's status; else
    /// that of terminating the tree.
    pub fn finish(self) -> (output: Result<SessionOutput>)
        requires
            self@.next == CollectAction::Finish,
        ensures
            gives_back(self@, output),
            self@.output->0 is Err ==> output is Err && output->Err_0@ == ErrorContext::Io(
                self@.output->0->Err_0,
            ),
            self@.output->0 is Ok ==> {
                let status = self@.status->0;
                let killed = self@.killed->0;
                &&& self@.status is Some
                &&& status is Err ==> output == Err::<SessionOutput, Error>(status->Err_0)
                &&& (status is Ok && killed is Err) ==> output == Err::<SessionOutput, Error>(
                    killed->Err_0,
                )
                &&& (status is Ok && killed is Ok) ==> {
                    &&& output is Ok
                    &&& output->Ok_0.spec_status() == status->Ok_0
                    &&& output->Ok_0.spec_bytes() == self@.output->0->Ok_0@
                }
            },
    {
        proof {
            use_type_invariant(&self);
        }
        let bytes = match self.output {
            Some(Ok(bytes)) => bytes,
            Some(Err(err)) => return Err(Error::from(err)),
            None => return Err(Error::from(IoError::other(NO_RESULT))),
        };
        let status = match self.status {
            Some(Ok(status)) => status,
            Some(Err(err)) => return Err(err),
            None => return Err(Error::from(IoError::other(NO_STATUS))),
        };
        match self.killed {
            Some(Err(err)) => return Err(err),
            _ => {},
        }
        Ok(SessionOutput::new(status, bytes))
    }
}

/// Why a collection whose reader returned nothing would fail.
pub const NO_RESULT: &'static str = "the output reader completed without a result";

/// Why a collection without a root status would fail.
pub const NO_STATUS: &'static str = "output collection ended without a root status";

/// What came of an action.
pub enum CollectEvent {
    /// The child was polled.
    Polled(Result<Option<ExitStatus>>),
    /// The reader was waited for.
    ReaderWaited(bool),
    /// The reader was joined.
    Joined(core::result::Result<Vec<u8>, IoError>),
    /// The child was waited for.
    Waited(Result<ExitStatus>),
    /// The tree was terminated, or could not be.
    Killed(Result<()>),
    /// The child and its job were dropped.
    ChildRetired,
    /// The input was dropped.
    InputRetired,
    /// The controller was dropped.
    ControllerRetired,
}

/// A collection and how often its irrevocable actions were performed.
pub struct Progress {
    /// The collection.
    pub collection: Collection,
    /// How often the reader was joined.
    pub joins: nat,
    /// How often the tree was terminated.
    pub kills: nat,
    /// How often the child and its job were dropped.
    pub child_drops: nat,
    /// How often the input was dropped.
    pub input_drops: nat,
    /// How often the controller was dropped.
    pub controller_drops: nat,
}

impl Progress {
    /// A collection that was just begun.
    pub open spec fn begin() -> Progress {
        Progress {
            collection: Collection::begin(),
            joins: 0,
            kills: 0,
            child_drops: 0,
            input_drops: 0,
            controller_drops: 0,
        }
    }

    /// After one more report, which has to be of the action that was asked for.
    pub open spec fn after(self, event: CollectEvent) -> Progress {
        let c = self.collection;
        match event {
            CollectEvent::Polled(polled) => if c.next == CollectAction::PollChild {
                Progress { collection: c.after_poll(polled), ..self }
            } else {
                self
            },
            CollectEvent::ReaderWaited(done) => if c.next == CollectAction::AwaitReader {
                Progress { collection: c.after_reader_wait(done), ..self }
            } else {
                self
            },
            CollectEvent::Joined(output) => if c.next == CollectAction::JoinReader {
                Progress { collection: c.after_join(output), joins: self.joins + 1, ..self }
            } else {
                self
            },
            CollectEvent::Waited(waited) => if c.next == CollectAction::WaitChild {
                Progress { collection: c.after_wait(waited), ..self }
            } else {
                self
            },
            CollectEvent::Killed(killed) => if c.next == CollectAction::KillTree {
                Progress { collection: c.after_kill(killed), kills: self.kills + 1, ..self }
            } else {
                self
            },
            CollectEvent::ChildRetired => if c.next == CollectAction::RetireChild {
                Progress {
                    collection: c.after_child_retired(),
                    child_drops: self.child_drops + 1,
                    ..self
                }
            } else {
                self
            },
            CollectEvent::InputRetired => if c.next == CollectAction::RetireInput {
                Progress {
                    collection: c.after_input_retired(),
                    input_drops: self.input_drops + 1,
                    ..self
                }
            } else {
                self
            },
            CollectEvent::ControllerRetired => if c.next == CollectAction::RetireController {
                Progress {
                    collection: c.after_controller_retired(),
                    controller_drops: self.controller_drops + 1,
                    ..self
                }
            } else {
                self
            },
        }
    }

    /// After a whole sequence of reports.
    pub open spec fn run(self, events: Seq<CollectEvent>) -> Progress
        decreases events.len(),
    {
        if events.len() == 0 {
            self
        } else {
            self.run(events.drop_last()).after(events.last())
        }
    }

    /// What every collection keeps.
    pub open spec fn orderly(self) -> bool {
        let c = self.collection;
        &&& c.consistent()
        &&& self.joins == (if c.output is Some {
            1nat
        } else {
            0
        })
        &&& self.kills == (if c.killed is Some {
            1nat
        } else {
            0
        })
        &&& self.child_drops == (if self.past(0) {
            1nat
        } else {
            0
        })
        &&& self.input_drops == (if self.past(1) {
            1nat
        } else {
            0
        })
        &&& self.controller_drops == (if self.past(2) {
            1nat
        } else {
            0
        })
    }

    /// Whether the retirement is past its step `step`: the child, the input, and
    /// the controller, counted from zero.
    pub open spec fn past(self, step: int) -> bool {
        self.collection.killed is Some && match self.collection.next {
            CollectAction::RetireChild => false,
            CollectAction::RetireInput => step < 1,
            CollectAction::RetireController => step < 2,
            _ => true,
        }
    }
}

/// Every collection is orderly.
pub proof fn every_collection_is_orderly(events: Seq<CollectEvent>)
    ensures
        Progress::begin().run(events).orderly(),
    decreases events.len(),
{
    if events.len() > 0 {
        every_collection_is_orderly(events.drop_last());
    }
}

/// The tree is terminated only once the root's own status is known, or given up
/// because the output could not be read: terminating it never replaces the real
/// exit status. The child is dropped only after that.
pub proof fn root_status_comes_before_termination(events: Seq<CollectEvent>)
    ensures
        ({
            let progress = Progress::begin().run(events);
            let c = progress.collection;
            &&& (progress.kills > 0 || c.next == CollectAction::KillTree) ==> c.settled()
            &&& progress.child_drops > 0 ==> progress.kills == 1
        }),
{
    every_collection_is_orderly(events);
}

/// The parts of a session go in order, at every point of every collection: the
/// child and its job before the input, and the input before the controller. A
/// reader that outlived the root is joined after all of them.
pub proof fn parts_are_retired_in_order(events: Seq<CollectEvent>)
    ensures
        ({
            let progress = Progress::begin().run(events);
            let c = progress.collection;
            &&& progress.input_drops > 0 ==> progress.child_drops == 1
            &&& progress.controller_drops > 0 ==> progress.input_drops == 1
            &&& (c.next == CollectAction::JoinReader && progress.kills > 0)
                ==> progress.controller_drops == 1
        }),
{
    every_collection_is_orderly(events);
}

/// A collection that is finished joined its reader, terminated the tree and
/// dropped the child, the input and the controller exactly once each, whatever
/// failed on the way; and if the output was read, the root's status is known.
pub proof fn finished_collection_left_nothing_behind(events: Seq<CollectEvent>)
    ensures
        ({
            let progress = Progress::begin().run(events);
            let c = progress.collection;
            c.next == CollectAction::Finish ==> {
                &&& progress.joins == 1
                &&& progress.kills == 1
                &&& progress.child_drops == 1
                &&& progress.input_drops == 1
                &&& progress.controller_drops == 1
                &&& c.output->0 is Ok ==> c.status is Some
            }
        }),
{
    every_collection_is_orderly(events);
}

/// Polls that find the root running, and waits that find the reader at work,
/// leave a collection where it was.
pub proof fn fruitless_rounds_change_nothing()
    ensures
        Collection::begin().after_poll(Ok(None)).after_reader_wait(false) == Collection::begin(),
{
}

/// A root that was found exited is collected: whatever its status, the tree is
/// terminated next, the parts are dropped, the output is joined, and the
/// collection ends with just that status, that output, and that termination.
pub proof fn exited_root_is_collected(
    status: ExitStatus,
    killed: Result<()>,
    output: core::result::Result<Vec<u8>, IoError>,
)
    ensures
        Collection::begin().after_poll(Ok(Some(status))).next == CollectAction::KillTree,
        Collection::begin().after_poll(Ok(Some(status))).status == Some(
            Ok::<ExitStatus, Error>(status),
        ),
        ({
            let end = Collection::begin().after_poll(Ok(Some(status))).after_kill(
                killed,
            ).after_child_retired().after_input_retired().after_controller_retired().after_join(
                output,
            );
            &&& end.next == CollectAction::Finish
            &&& end.status == Some(Ok::<ExitStatus, Error>(status))
            &&& end.output == Some(output)
            &&& end.killed == Some(killed)
        }),
{
}

/// A root whose status cannot be polled is given up in the same way, and the
/// failure of the poll is what is known of its status.
pub proof fn unpollable_root_is_collected(
    err: Error,
    killed: Result<()>,
    output: core::result::Result<Vec<u8>, IoError>,
)
    ensures
        ({
            let end = Collection::begin().after_poll(Err(err)).after_kill(
                killed,
            ).after_child_retired().after_input_retired().after_controller_retired().after_join(
                output,
            );
            &&& end.next == CollectAction::Finish
            &&& end.status == Some(Err::<ExitStatus, Error>(err))
            &&& end.output == Some(output)
            &&& end.killed == Some(killed)
        }),
{
}

/// A reader that ends before the root does keeps its output, and the status is
/// the one that waiting for the root gives.
pub proof fn drained_root_is_waited_for(
    bytes: Vec<u8>,
    waited: Result<ExitStatus>,
    killed: Result<()>,
)
    ensures
        ({
            let joined = Collection::begin().after_poll(Ok(None)).after_reader_wait(
                true,
            ).after_join(Ok(bytes));
            let end = joined.after_wait(waited).after_kill(
                killed,
            ).after_child_retired().after_input_retired().after_controller_retired();
            &&& joined.next == CollectAction::WaitChild
            &&& end.next == CollectAction::Finish
            &&& end.status == Some(waited)
            &&& end.output == Some(Ok::<Vec<u8>, IoError>(bytes))
            &&& end.killed == Some(killed)
        }),
{
}

/// A reader that fails ends the collection without a status: the root is not
/// waited for, but its tree is terminated all the same.
pub proof fn failed_reader_gives_the_root_up(err: IoError, killed: Result<()>)
    ensures
        ({
            let joined = Collection::begin().after_poll(Ok(None)).after_reader_wait(
                true,
            ).after_join(Err(err));
            let end = joined.after_kill(
                killed,
            ).after_child_retired().after_input_retired().after_controller_retired();
            &&& joined.next == CollectAction::KillTree
            &&& end.next == CollectAction::Finish
            &&& end.status is None
            &&& end.output == Some(Err::<Vec<u8>, IoError>(err))
            &&& end.killed == Some(killed)
        }),
{
}

/// What the reports of a history say of the root's status: the last poll that
/// was asked for and told it, or failed to, or the wait that was asked for.
pub open spec fn reported_status(events: Seq<CollectEvent>) -> Option<Result<ExitStatus>>
    decreases events.len(),
{
    if events.len() == 0 {
        None
    } else {
        let asked = Progress::begin().run(events.drop_last()).collection.next;
        match events.last() {
            CollectEvent::Polled(Ok(Some(status))) if asked == CollectAction::PollChild => Some(
                Ok(status),
            ),
            CollectEvent::Polled(Err(err)) if asked == CollectAction::PollChild => Some(Err(err)),
            CollectEvent::Waited(waited) if asked == CollectAction::WaitChild => Some(waited),
            _ => reported_status(events.drop_last()),
        }
    }
}

/// The output that the joined reader of a history gave.
pub open spec fn reported_output(events: Seq<CollectEvent>) -> Option<
    core::result::Result<Vec<u8>, IoError>,
>
    decreases events.len(),
{
    if events.len() == 0 {
        None
    } else {
        let asked = Progress::begin().run(events.drop_last()).collection.next;
        match events.last() {
            CollectEvent::Joined(output) if asked == CollectAction::JoinReader => Some(output),
            _ => reported_output(events.drop_last()),
        }
    }
}

/// What a collection knows is what was reported to it, in every history: the
/// status is the one that the poll or the wait gave, and the output the one that
/// the reader gave.
pub proof fn collection_knows_what_was_reported(events: Seq<CollectEvent>)
    ensures
        Progress::begin().run(events).collection.status == reported_status(events),
        Progress::begin().run(events).collection.output == reported_output(events),
    decreases events.len(),
{
    if events.len() > 0 {
        collection_knows_what_was_reported(events.drop_last());
    }
}

/// A report of a status ends the polling: in no history is the root polled again
/// once its status, whatever it is, was reported.
pub proof fn known_status_ends_the_polling(events: Seq<CollectEvent>)
    ensures
        ({
            let next = Progress::begin().run(events).collection.next;
            reported_status(events) is Some ==> {
                &&& next != CollectAction::PollChild
                &&& next != CollectAction::AwaitReader
                &&& next != CollectAction::WaitChild
            }
        }),
{
    every_collection_is_orderly(events);
    collection_knows_what_was_reported(events);
}

/// Whether `output` is what a collection that ended as `end` gives back.
pub open spec fn gives_back(end: Collection, output: Result<SessionOutput>) -> bool {
    &&& output is Ok <==> {
        &&& end.output matches Some(Ok(_))
        &&& end.status matches Some(Ok(_))
        &&& end.killed matches Some(Ok(_))
    }
    &&& output matches Ok(given) ==> {
        &&& end.status == Some(Ok::<ExitStatus, Error>(given.spec_status()))
        &&& given.spec_bytes() == end.output->0->Ok_0@
    }
}

/// A finished collection gives back the real exit status of the root, the one
/// that the poll or the wait reported, and all of the output that the reader
/// read.
pub proof fn collection_gives_back_what_was_reported(
    events: Seq<CollectEvent>,
    given: SessionOutput,
)
    requires
        gives_back(Progress::begin().run(events).collection, Ok(given)),
    ensures
        reported_status(events) == Some(Ok::<ExitStatus, Error>(given.spec_status())),
        reported_output(events) is Some,
        reported_output(events)->0 is Ok,
        reported_output(events)->0->Ok_0@ == given.spec_bytes(),
{
    collection_knows_what_was_reported(events);
}

} // verus!
