//! The receiving end: provision the node, wait for a writer by opening it
//! for reading, drain it until the writer closes, delete it.

use vstd::prelude::*;
use crate::path::{join, pipe_path, admission, screen, extend, to_vec, Rejected, NODE_MODE};
use crate::protocol::{
    abort, event_views, failure_site, in_place, Action, ActionView, Event, EventView, Failure,
};

verus! {

/// How far a receive has come. Each stage but the last two waits for the
/// outcome of one action.
#[derive(Clone, Copy, Debug, PartialEq, Eq, Structural)]
pub enum ReceiveStage {
    /// The root directory is being created.
    EnsuringRoot,
    /// The pipe node is being created.
    CreatingNode,
    /// The node is being opened for reading; the open returns once a writer
    /// has attached.
    Opening,
    /// The node is being drained, one read at a time.
    Reading,
    /// The writer has closed its end and the node is being deleted.
    Removing,
    /// The node is gone and the message is complete.
    Finished,
    /// The receive was given up.
    Aborted(Failure),
}

/// A receive as a mathematical value.
pub ghost struct ReceiverView {
    pub root: Seq<u8>,
    pub path: Seq<u8>,
    /// Every byte read so far, in the order it came.
    pub buffer: Seq<u8>,
    pub stage: ReceiveStage,
}

/// The receive `receiver` once `event` is reported of its action. While
/// reading, bytes are appended as they are, whatever they hold, and a read of
/// no bytes ends the message. Elsewhere success moves one stage on. Anything
/// else aborts with the failure of the operation that was under way. The
/// last two stages never change.
pub open spec fn receiver_after(receiver: ReceiverView, event: EventView) -> ReceiverView {
    match receiver.stage {
        ReceiveStage::EnsuringRoot => if in_place(event) {
            ReceiverView { stage: ReceiveStage::CreatingNode, ..receiver }
        } else {
            ReceiverView { stage: ReceiveStage::Aborted(Failure::DirectoryCreation), ..receiver }
        },
        ReceiveStage::CreatingNode => if in_place(event) {
            ReceiverView { stage: ReceiveStage::Opening, ..receiver }
        } else {
            ReceiverView { stage: ReceiveStage::Aborted(Failure::PipeCreation), ..receiver }
        },
        ReceiveStage::Opening => if event is Done {
            ReceiverView { stage: ReceiveStage::Reading, ..receiver }
        } else {
            ReceiverView { stage: ReceiveStage::Aborted(Failure::Open), ..receiver }
        },
        ReceiveStage::Reading => match event {
            EventView::Bytes(chunk) => if chunk.len() == 0 {
                ReceiverView { stage: ReceiveStage::Removing, ..receiver }
            } else {
                ReceiverView { buffer: receiver.buffer + chunk, ..receiver }
            },
            _ => ReceiverView { stage: ReceiveStage::Aborted(Failure::Read), ..receiver },
        },
        ReceiveStage::Removing => if event is Done {
            ReceiverView { stage: ReceiveStage::Finished, ..receiver }
        } else {
            ReceiverView { stage: ReceiveStage::Aborted(Failure::Delete), ..receiver }
        },
        ReceiveStage::Finished => receiver,
        ReceiveStage::Aborted(_) => receiver,
    }
}

/// The receive `receiver` after each of `events` in turn.
pub open spec fn receiver_run(receiver: ReceiverView, events: Seq<EventView>) -> ReceiverView
    decreases events.len(),
{
    if events.len() == 0 {
        receiver
    } else {
        receiver_after(receiver_run(receiver, events.drop_last()), events.last())
    }
}

/// Taking one more event is one more step.
pub proof fn receiver_run_push(receiver: ReceiverView, events: Seq<EventView>, event: EventView)
    ensures
        receiver_run(receiver, events.push(event)) == receiver_after(
            receiver_run(receiver, events),
            event,
        ),
{
    assert(events.push(event).drop_last() =~= events);
}

/// The action that `receiver` waits for.
pub open spec fn receiver_action(receiver: ReceiverView) -> ActionView {
    match receiver.stage {
        ReceiveStage::EnsuringRoot => ActionView::CreateRoot { root: receiver.root },
        ReceiveStage::CreatingNode => ActionView::CreateNode {
            path: receiver.path,
            mode: NODE_MODE,
        },
        ReceiveStage::Opening => ActionView::OpenForReading { path: receiver.path },
        ReceiveStage::Reading => ActionView::Read,
        ReceiveStage::Removing => ActionView::Remove { path: receiver.path },
        ReceiveStage::Finished => ActionView::Rest,
        ReceiveStage::Aborted(failure) => ActionView::Abort {
            failure,
            path: failure_site(failure, receiver.root, receiver.path),
        },
    }
}

/// The message that `receiver` hands out: everything it read, once it has
/// finished, and nothing before that or after a failure.
pub open spec fn receiver_message(receiver: ReceiverView) -> Option<Seq<u8>> {
    if receiver.stage == ReceiveStage::Finished {
        Some(receiver.buffer)
    } else {
        None
    }
}

/// The receive under `key` in the directory `root`, before its first action.
pub open spec fn receiver_start(root: Seq<u8>, key: Seq<u8>) -> ReceiverView {
    ReceiverView {
        root,
        path: pipe_path(root, key),
        buffer: Seq::empty(),
        stage: ReceiveStage::EnsuringRoot,
    }
}

/// One receive of one message under one key.
#[derive(Debug)]
pub struct Receiver {
    root: Vec<u8>,
    path: Vec<u8>,
    buffer: Vec<u8>,
    stage: ReceiveStage,
}

impl View for Receiver {
    type V = ReceiverView;

    closed spec fn view(&self) -> ReceiverView {
        ReceiverView {
            root: self.root@,
            path: self.path@,
            buffer: self.buffer@,
            stage: self.stage,
        }
    }
}

impl Receiver {
    /// Starts a receive under `key` in the directory `root`, or says why the
    /// root and key name no node.
    pub fn new(root: &[u8], key: &[u8]) -> (made: Result<Receiver, Rejected>)
        ensures
            match admission(root@, key@) {
                Some(reason) => made == Err::<Receiver, Rejected>(reason),
                None => made is Ok && made->Ok_0@ == receiver_start(root@, key@),
            },
    {
        match screen(root, key) {
            Some(reason) => Err(reason),
            None => Ok(
                Receiver {
                    root: to_vec(root),
                    path: join(root, key),
                    buffer: Vec::new(),
                    stage: ReceiveStage::EnsuringRoot,
                },
            ),
        }
    }

    /// The stage that the receive is in.
    pub fn stage(&self) -> (stage: ReceiveStage)
        ensures
            stage == self@.stage,
    {
        self.stage
    }

    /// The path of the pipe node.
    pub fn path(&self) -> (path: &[u8])
        ensures
            path@ == self@.path,
    {
        self.path.as_slice()
    }

    /// The root directory.
    pub fn root(&self) -> (root: &[u8])
        ensures
            root@ == self@.root,
    {
        self.root.as_slice()
    }

    /// Tells whether the node is gone and the message complete.
    pub fn is_finished(&self) -> (yes: bool)
        ensures
            yes == (self@.stage == ReceiveStage::Finished),
    {
        match self.stage {
            ReceiveStage::Finished => true,
            _ => false,
        }
    }

    /// The failure that the receive was given up on, if it was.
    pub fn failure(&self) -> (failure: Option<Failure>)
        ensures
            failure == (match self@.stage {
                ReceiveStage::Aborted(f) => Some(f),
                _ => None,
            }),
    {
        match self.stage {
            ReceiveStage::Aborted(f) => Some(f),
            _ => None,
        }
    }

    /// Hands out the message, if the receive has finished.
    pub fn into_message(self) -> (message: Option<Vec<u8>>)
        ensures
            match receiver_message(self@) {
                Some(bytes) => message is Some && message->Some_0@ == bytes,
                None => message is None,
            },
    {
        match self.stage {
            ReceiveStage::Finished => Some(self.buffer),
            _ => None,
        }
    }

    /// The action that the caller has to perform now.
    pub fn action(&self) -> (action: Action)
        ensures
            action@ == receiver_action(self@),
    {
        match self.stage {
            ReceiveStage::EnsuringRoot => Action::CreateRoot { root: to_vec(self.root.as_slice()) },
            ReceiveStage::CreatingNode => Action::CreateNode {
                path: to_vec(self.path.as_slice()),
                mode: NODE_MODE,
            },
            ReceiveStage::Opening => Action::OpenForReading { path: to_vec(self.path.as_slice()) },
            ReceiveStage::Reading => Action::Read,
            ReceiveStage::Removing => Action::Remove { path: to_vec(self.path.as_slice()) },
            ReceiveStage::Finished => Action::Rest,
            ReceiveStage::Aborted(failure) => abort(
                failure,
                self.root.as_slice(),
                self.path.as_slice(),
            ),
        }
    }

    /// Takes the outcome of the action that was due and moves on.
    pub fn step(self, event: &Event) -> (next: Receiver)
        ensures
            next@ == receiver_after(self@, event@),
    {
        let mut buffer = self.buffer;
        let stage = match self.stage {
            ReceiveStage::EnsuringRoot => if event.is_in_place() {
                ReceiveStage::CreatingNode
            } else {
                ReceiveStage::Aborted(Failure::DirectoryCreation)
            },
            ReceiveStage::CreatingNode => if event.is_in_place() {
                ReceiveStage::Opening
            } else {
                ReceiveStage::Aborted(Failure::PipeCreation)
            },
            ReceiveStage::Opening => if event.is_done() {
                ReceiveStage::Reading
            } else {
                ReceiveStage::Aborted(Failure::Open)
            },
            ReceiveStage::Reading => match event {
                Event::Bytes(chunk) => if chunk.len() == 0 {
                    ReceiveStage::Removing
                } else {
                    extend(&mut buffer, chunk.as_slice());
                    ReceiveStage::Reading
                },
                _ => ReceiveStage::Aborted(Failure::Read),
            },
            ReceiveStage::Removing => if event.is_done() {
                ReceiveStage::Finished
            } else {
                ReceiveStage::Aborted(Failure::Delete)
            },
            ReceiveStage::Finished => ReceiveStage::Finished,
            ReceiveStage::Aborted(failure) => ReceiveStage::Aborted(failure),
        };
        Receiver { root: self.root, path: self.path, buffer, stage }
    }

    /// Takes each of `events` in turn, as the outcomes of the actions that
    /// were due one after the other.
    pub fn replay(self, events: &[Event]) -> (next: Receiver)
        ensures
            next@ == receiver_run(self@, event_views(events@)),
    {
        let ghost start = self@;
        let mut current = self;
        let mut i: usize = 0;
        assert(event_views(events@.take(0)) =~= Seq::<EventView>::empty());
        while i < events.len()
            invariant
                i <= events.len(),
                current@ == receiver_run(start, event_views(events@.take(i as int))),
            decreases events.len() - i,
        {
            proof {
                receiver_run_push(start, event_views(events@.take(i as int)), events@[i as int]@);
                assert(event_views(events@.take(i + 1)) =~= event_views(
                    events@.take(i as int),
                ).push(events@[i as int]@));
            }
            current = current.step(&events[i]);
            i += 1;
        }
        assert(events@.take(i as int) =~= events@);
        current
    }
}

} // verus!
