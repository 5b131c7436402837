//! The sending end: provision the node, wait for a reader by opening it for
//! writing, write the whole message, close.

use vstd::prelude::*;
use crate::path::{join, pipe_path, admission, screen, to_vec, Rejected, NODE_MODE};
use crate::protocol::{
    abort, event_views, failure_site, in_place, Action, ActionView, Event, EventView, Failure,
};

verus! {

/// How far a send has come. Each stage but the last two waits for the
/// outcome of one action.
#[derive(Clone, Copy, Debug, PartialEq, Eq, Structural)]
pub enum SendStage {
    /// The root directory is being created.
    EnsuringRoot,
    /// The pipe node is being created.
    CreatingNode,
    /// The node is being opened for writing; the open returns once a reader
    /// has attached.
    Opening,
    /// The message is being written.
    Writing,
    /// The write end is being closed.
    Closing,
    /// The message was delivered in full.
    Finished,
    /// The send was given up.
    Aborted(Failure),
}

/// A send as a mathematical value.
pub ghost struct SenderView {
    pub root: Seq<u8>,
    pub path: Seq<u8>,
    pub payload: Seq<u8>,
    pub stage: SendStage,
}

/// The stage that follows `stage` once `event` is reported of its action.
/// Success moves one stage on; anything else aborts with the failure of the
/// operation that was under way. The last two stages never change.
pub open spec fn send_next(stage: SendStage, event: EventView) -> SendStage {
    match stage {
        SendStage::EnsuringRoot => if in_place(event) {
            SendStage::CreatingNode
        } else {
            SendStage::Aborted(Failure::DirectoryCreation)
        },
        SendStage::CreatingNode => if in_place(event) {
            SendStage::Opening
        } else {
            SendStage::Aborted(Failure::PipeCreation)
        },
        SendStage::Opening => if event is Done {
            SendStage::Writing
        } else {
            SendStage::Aborted(Failure::Open)
        },
        SendStage::Writing => if event is Done {
            SendStage::Closing
        } else {
            SendStage::Aborted(Failure::Write)
        },
        SendStage::Closing => if event is Done {
            SendStage::Finished
        } else {
            SendStage::Aborted(Failure::Write)
        },
        SendStage::Finished => SendStage::Finished,
        SendStage::Aborted(failure) => SendStage::Aborted(failure),
    }
}

/// The send `sender` after `event`: only its stage moves.
pub open spec fn sender_after(sender: SenderView, event: EventView) -> SenderView {
    SenderView { stage: send_next(sender.stage, event), ..sender }
}

/// The send `sender` after each of `events` in turn.
pub open spec fn sender_run(sender: SenderView, events: Seq<EventView>) -> SenderView
    decreases events.len(),
{
    if events.len() == 0 {
        sender
    } else {
        sender_after(sender_run(sender, events.drop_last()), events.last())
    }
}

/// Taking one more event is one more step.
pub proof fn sender_run_push(sender: SenderView, events: Seq<EventView>, event: EventView)
    ensures
        sender_run(sender, events.push(event)) == sender_after(sender_run(sender, events), event),
{
    assert(events.push(event).drop_last() =~= events);
}

/// The action that `sender` waits for.
pub open spec fn sender_action(sender: SenderView) -> ActionView {
    match sender.stage {
        SendStage::EnsuringRoot => ActionView::CreateRoot { root: sender.root },
        SendStage::CreatingNode => ActionView::CreateNode { path: sender.path, mode: NODE_MODE },
        SendStage::Opening => ActionView::OpenForWriting { path: sender.path },
        SendStage::Writing => ActionView::Write { payload: sender.payload },
        SendStage::Closing => ActionView::Close,
        SendStage::Finished => ActionView::Rest,
        SendStage::Aborted(failure) => ActionView::Abort {
            failure,
            path: failure_site(failure, sender.root, sender.path),
        },
    }
}

/// The send of `payload` under `key` in the directory `root`, before its
/// first action.
pub open spec fn sender_start(root: Seq<u8>, key: Seq<u8>, payload: Seq<u8>) -> SenderView {
    SenderView { root, path: pipe_path(root, key), payload, stage: SendStage::EnsuringRoot }
}

/// One send of one message under one key.
#[derive(Debug)]
pub struct Sender {
    root: Vec<u8>,
    path: Vec<u8>,
    payload: Vec<u8>,
    stage: SendStage,
}

impl View for Sender {
    type V = SenderView;

    closed spec fn view(&self) -> SenderView {
        SenderView {
            root: self.root@,
            path: self.path@,
            payload: self.payload@,
            stage: self.stage,
        }
    }
}

impl Sender {
    /// Starts a send of `payload` under `key` in the directory `root`, or
    /// says why the root and key name no node.
    pub fn new(root: &[u8], key: &[u8], payload: &[u8]) -> (made: Result<Sender, Rejected>)
        ensures
            match admission(root@, key@) {
                Some(reason) => made == Err::<Sender, Rejected>(reason),
                None => made is Ok && made->Ok_0@ == sender_start(root@, key@, payload@),
            },
    {
        match screen(root, key) {
            Some(reason) => Err(reason),
            None => Ok(
                Sender {
                    root: to_vec(root),
                    path: join(root, key),
                    payload: to_vec(payload),
                    stage: SendStage::EnsuringRoot,
                },
            ),
        }
    }

    /// The stage that the send is in.
    pub fn stage(&self) -> (stage: SendStage)
        ensures
            stage == self@.stage,
    {
        self.stage
    }

    /// The path of the pipe node.
    pub fn path(&self) -> (path: &[u8])
        ensures
            path@ == self@.path,
    {
        self.path.as_slice()
    }

    /// The root directory.
    pub fn root(&self) -> (root: &[u8])
        ensures
            root@ == self@.root,
    {
        self.root.as_slice()
    }

    /// The message to deliver.
    pub fn payload(&self) -> (payload: &[u8])
        ensures
            payload@ == self@.payload,
    {
        self.payload.as_slice()
    }

    /// Tells whether the message was delivered in full.
    pub fn is_finished(&self) -> (yes: bool)
        ensures
            yes == (self@.stage == SendStage::Finished),
    {
        match self.stage {
            SendStage::Finished => true,
            _ => false,
        }
    }

    /// The failure that the send was given up on, if it was.
    pub fn failure(&self) -> (failure: Option<Failure>)
        ensures
            failure == (match self@.stage {
                SendStage::Aborted(f) => Some(f),
                _ => None,
            }),
    {
        match self.stage {
            SendStage::Aborted(f) => Some(f),
            _ => None,
        }
    }

    /// The action that the caller has to perform now.
    pub fn action(&self) -> (action: Action)
        ensures
            action@ == sender_action(self@),
    {
        match self.stage {
            SendStage::EnsuringRoot => Action::CreateRoot { root: to_vec(self.root.as_slice()) },
            SendStage::CreatingNode => Action::CreateNode {
                path: to_vec(self.path.as_slice()),
                mode: NODE_MODE,
            },
            SendStage::Opening => Action::OpenForWriting { path: to_vec(self.path.as_slice()) },
            SendStage::Writing => Action::Write { payload: to_vec(self.payload.as_slice()) },
            SendStage::Closing => Action::Close,
            SendStage::Finished => Action::Rest,
            SendStage::Aborted(failure) => abort(
                failure,
                self.root.as_slice(),
                self.path.as_slice(),
            ),
        }
    }

    /// Takes the outcome of the action that was due and moves on.
    pub fn step(self, event: &Event) -> (next: Sender)
        ensures
            next@ == sender_after(self@, event@),
    {
        let stage = match self.stage {
            SendStage::EnsuringRoot => if event.is_in_place() {
                SendStage::CreatingNode
            } else {
                SendStage::Aborted(Failure::DirectoryCreation)
            },
            SendStage::CreatingNode => if event.is_in_place() {
                SendStage::Opening
            } else {
                SendStage::Aborted(Failure::PipeCreation)
            },
            SendStage::Opening => if event.is_done() {
                SendStage::Writing
            } else {
                SendStage::Aborted(Failure::Open)
            },
            SendStage::Writing => if event.is_done() {
                SendStage::Closing
            } else {
                SendStage::Aborted(Failure::Write)
            },
            SendStage::Closing => if event.is_done() {
                SendStage::Finished
            } else {
                SendStage::Aborted(Failure::Write)
            },
            SendStage::Finished => SendStage::Finished,
            SendStage::Aborted(failure) => SendStage::Aborted(failure),
        };
        Sender { root: self.root, path: self.path, payload: self.payload, stage }
    }

    /// Takes each of `events` in turn, as the outcomes of the actions that
    /// were due one after the other.
    pub fn replay(self, events: &[Event]) -> (next: Sender)
        ensures
            next@ == sender_run(self@, event_views(events@)),
    {
        let ghost start = self@;
        let mut current = self;
        let mut i: usize = 0;
        assert(event_views(events@.take(0)) =~= Seq::<EventView>::empty());
        while i < events.len()
            invariant
                i <= events.len(),
                current@ == sender_run(start, event_views(events@.take(i as int))),
            decreases events.len() - i,
        {
            proof {
                sender_run_push(start, event_views(events@.take(i as int)), events@[i as int]@);
                assert(event_views(events@.take(i + 1)) =~= event_views(
                    events@.take(i as int),
                ).push(events@[i as int]@));
            }
            current = current.step(&events[i]);
            i += 1;
        }
        assert(events@.take(i as int) =~= events@);
        current
    }
}

} // verus!
