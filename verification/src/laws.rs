//! What holds of every exchange, whatever the key, the message and the way
//! the pipe cuts the message into reads.

use vstd::prelude::*;
use crate::namespace::{creation_report, nodes_after, nodes_after_receive};
use crate::path::{pipe_path, NODE_MODE};
use crate::protocol::{in_place, ActionView, EventView, Failure};
use crate::receiver::{
    receiver_action, receiver_message, receiver_run, receiver_run_push, receiver_start,
    ReceiveStage, ReceiverView,
};
use crate::sender::{sender_action, sender_run, sender_run_push, sender_start, SendStage};

verus! {

/// Whether each of `reads` is a read that returned at least one byte.
pub open spec fn all_chunks(reads: Seq<EventView>) -> bool {
    forall|i: int|
        0 <= i < reads.len() ==> (#[trigger] reads[i]) is Bytes && reads[i]->Bytes_0.len() > 0
}

/// The bytes that `reads` returned, in the order they came. An event that is
/// no read adds nothing.
pub open spec fn delivered(reads: Seq<EventView>) -> Seq<u8>
    decreases reads.len(),
{
    if reads.len() == 0 {
        Seq::empty()
    } else {
        delivered(reads.drop_last()) + (match reads.last() {
            EventView::Bytes(chunk) => chunk,
            _ => Seq::empty(),
        })
    }
}

/// The events of a receive on which nothing fails: the root and the node
/// are in place, the open succeeds, `reads` come in, then a read of no bytes,
/// and the deletion succeeds.
pub open spec fn receive_trace(
    root_event: EventView,
    node_event: EventView,
    reads: Seq<EventView>,
) -> Seq<EventView> {
    seq![root_event, node_event, EventView::Done] + reads + seq![
        EventView::Bytes(Seq::empty()),
        EventView::Done,
    ]
}

/// Taking two runs of events in turn is taking them as one run.
pub proof fn receiver_run_concat(receiver: ReceiverView, head: Seq<EventView>, tail: Seq<EventView>)
    ensures
        receiver_run(receiver, head + tail) == receiver_run(receiver_run(receiver, head), tail),
    decreases tail.len(),
{
    if tail.len() == 0 {
        assert(head + tail =~= head);
    } else {
        receiver_run_concat(receiver, head, tail.drop_last());
        assert((head + tail).drop_last() =~= head + tail.drop_last());
    }
}

/// While it reads, a receiver appends every byte of every read to what it
/// has, in order, and stays reading.
pub proof fn draining_accumulates(receiver: ReceiverView, reads: Seq<EventView>)
    requires
        receiver.stage == ReceiveStage::Reading,
        all_chunks(reads),
    ensures
        receiver_run(receiver, reads) == (ReceiverView {
            buffer: receiver.buffer + delivered(reads),
            ..receiver
        }),
    decreases reads.len(),
{
    if reads.len() == 0 {
        assert(receiver.buffer + delivered(reads) =~= receiver.buffer);
    } else {
        let before = reads.drop_last();
        draining_accumulates(receiver, before);
        assert(reads.last() == reads[reads.len() - 1]);
        assert((receiver.buffer + delivered(before)) + reads.last()->Bytes_0 =~= receiver.buffer
            + delivered(reads));
    }
}

/// A receiver whose root and node are in place and whose open succeeded is
/// reading, with nothing read yet.
pub proof fn provisioned_receiver_reads(
    root: Seq<u8>,
    key: Seq<u8>,
    root_event: EventView,
    node_event: EventView,
)
    requires
        in_place(root_event),
        in_place(node_event),
    ensures
        receiver_run(receiver_start(root, key), seq![root_event, node_event, EventView::Done])
            == (ReceiverView { stage: ReceiveStage::Reading, ..receiver_start(root, key) }),
{
    let start = receiver_start(root, key);
    let none = Seq::<EventView>::empty();
    receiver_run_push(start, none, root_event);
    receiver_run_push(start, none.push(root_event), node_event);
    receiver_run_push(start, none.push(root_event).push(node_event), EventView::Done);
    assert(seq![root_event, node_event, EventView::Done] =~= none.push(root_event).push(
        node_event,
    ).push(EventView::Done));
}

/// Round trip. Where nothing fails, the sender asks for exactly its message
/// to be written, and a receiver to which the pipe hands those bytes, cut
/// into reads in any way, hands out exactly that message, whatever bytes it
/// holds.
pub proof fn round_trip(
    root: Seq<u8>,
    key: Seq<u8>,
    message: Seq<u8>,
    root_event: EventView,
    node_event: EventView,
    reads: Seq<EventView>,
)
    requires
        in_place(root_event),
        in_place(node_event),
        all_chunks(reads),
        delivered(reads) == message,
    ensures
        sender_action(
            sender_run(
                sender_start(root, key, message),
                seq![root_event, node_event, EventView::Done],
            ),
        ) == (ActionView::Write { payload: message }),
        receiver_message(
            receiver_run(receiver_start(root, key), receive_trace(root_event, node_event, reads)),
        ) == Some(message),
{
    let none = Seq::<EventView>::empty();
    let sender = sender_start(root, key, message);
    sender_run_push(sender, none, root_event);
    sender_run_push(sender, none.push(root_event), node_event);
    sender_run_push(sender, none.push(root_event).push(node_event), EventView::Done);
    assert(seq![root_event, node_event, EventView::Done] =~= none.push(root_event).push(
        node_event,
    ).push(EventView::Done));

    let start = receiver_start(root, key);
    let head = seq![root_event, node_event, EventView::Done];
    let tail = seq![EventView::Bytes(Seq::empty()), EventView::Done];
    provisioned_receiver_reads(root, key, root_event, node_event);
    let reading = receiver_run(start, head);
    draining_accumulates(reading, reads);
    receiver_run_concat(start, head, reads);
    let drained = receiver_run(start, head + reads);
    assert(drained.buffer =~= message);
    receiver_run_concat(start, head + reads, tail);
    receiver_run_push(drained, none, EventView::Bytes(Seq::empty()));
    receiver_run_push(drained, none.push(EventView::Bytes(Seq::empty())), EventView::Done);
    assert(tail =~= none.push(EventView::Bytes(Seq::empty())).push(EventView::Done));
}

/// Once the root and the node are in place, whether made or found, a receive
/// asks for the node to be opened for reading and a send for it to be opened
/// for writing, both at the path that the key names under the root.
pub proof fn provisioning_leads_to_the_open(
    root: Seq<u8>,
    key: Seq<u8>,
    message: Seq<u8>,
    root_event: EventView,
    node_event: EventView,
)
    requires
        in_place(root_event),
        in_place(node_event),
    ensures
        receiver_action(receiver_run(receiver_start(root, key), seq![root_event, node_event]))
            == (ActionView::OpenForReading { path: pipe_path(root, key) }),
        sender_action(
            sender_run(sender_start(root, key, message), seq![root_event, node_event]),
        ) == (ActionView::OpenForWriting { path: pipe_path(root, key) }),
{
    let none = Seq::<EventView>::empty();
    let receiver = receiver_start(root, key);
    let sender = sender_start(root, key, message);
    receiver_run_push(receiver, none, root_event);
    receiver_run_push(receiver, none.push(root_event), node_event);
    sender_run_push(sender, none, root_event);
    sender_run_push(sender, none.push(root_event), node_event);
    assert(seq![root_event, node_event] =~= none.push(root_event).push(node_event));
}

/// Idempotent provisioning. Whatever nodes exist, provisioning a key twice in
/// a row fails neither time: the first creation makes the node or finds it,
/// the second finds it and changes nothing, and each time the exchange, be
/// it a send or a receive, goes on to open the node at the same path.
pub proof fn provisioning_is_idempotent(
    root: Seq<u8>,
    key: Seq<u8>,
    message: Seq<u8>,
    nodes: Set<Seq<u8>>,
    root_event: EventView,
)
    requires
        in_place(root_event),
    ensures
        ({
            let path = pipe_path(root, key);
            let creation = ActionView::CreateNode { path, mode: NODE_MODE };
            let first = creation_report(nodes, path);
            let between = nodes_after(nodes, creation, first);
            let second = creation_report(between, path);
            let receiver = receiver_start(root, key);
            let sender = sender_start(root, key, message);
            &&& in_place(first)
            &&& between.contains(path)
            &&& second is AlreadyExists
            &&& nodes_after(between, creation, second) == between
            &&& receiver_action(receiver_run(receiver, seq![root_event, first])) == (
            ActionView::OpenForReading { path })
            &&& receiver_action(receiver_run(receiver, seq![root_event, second])) == (
            ActionView::OpenForReading { path })
            &&& sender_action(sender_run(sender, seq![root_event, first])) == (
            ActionView::OpenForWriting { path })
            &&& sender_action(sender_run(sender, seq![root_event, second])) == (
            ActionView::OpenForWriting { path })
        }),
{
    let path = pipe_path(root, key);
    let creation = ActionView::CreateNode { path, mode: NODE_MODE };
    let first = creation_report(nodes, path);
    let between = nodes_after(nodes, creation, first);
    let second = creation_report(between, path);
    provisioning_leads_to_the_open(root, key, message, root_event, first);
    provisioning_leads_to_the_open(root, key, message, root_event, second);
}

/// What the stage of a receive from its start tells of the events that it
/// took, `reads` being the reads that brought bytes: up to the end of the
/// message nothing has failed, the events are those of [`receive_trace`] as
/// far as it has come, and the receive holds exactly the bytes of `reads`.
/// Of an aborted receive it tells nothing.
pub open spec fn receive_history(
    root: Seq<u8>,
    key: Seq<u8>,
    events: Seq<EventView>,
    reads: Seq<EventView>,
) -> bool {
    let now = receiver_run(receiver_start(root, key), events);
    let opened = events.len() >= 3 && in_place(events[0]) && in_place(events[1]) && events[2]
        == EventView::Done && all_chunks(reads) && now.buffer == delivered(reads);
    let unread = reads.len() == 0 && now.buffer.len() == 0;
    match now.stage {
        ReceiveStage::EnsuringRoot => events.len() == 0 && unread,
        ReceiveStage::CreatingNode => events.len() == 1 && in_place(events[0]) && unread,
        ReceiveStage::Opening => events.len() == 2 && in_place(events[0]) && in_place(events[1])
            && unread,
        ReceiveStage::Reading => opened && events == seq![events[0], events[1], EventView::Done]
            + reads,
        ReceiveStage::Removing => opened && events == seq![
            events[0],
            events[1],
            EventView::Done,
        ] + reads + seq![EventView::Bytes(Seq::empty())],
        ReceiveStage::Finished => opened && events.len() >= reads.len() + 5 && events.take(
            reads.len() as int + 5,
        ) == receive_trace(events[0], events[1], reads),
        ReceiveStage::Aborted(_) => true,
    }
}

/// Only what was read is handed out. A receive finishes on no other events
/// than those of [`receive_trace`], followed by whatever is reported to it
/// after its end, and the message that it hands out is made of the bytes of
/// the reads on that trace, in their order, and of nothing else. The reads
/// are the result.
pub proof fn finished_receive_read_its_message(
    root: Seq<u8>,
    key: Seq<u8>,
    events: Seq<EventView>,
) -> (reads: Seq<EventView>)
    ensures
        receive_history(root, key, events, reads),
        receiver_run(receiver_start(root, key), events).stage == ReceiveStage::Finished ==> {
            &&& all_chunks(reads)
            &&& events.len() >= reads.len() + 5
            &&& events.take(reads.len() as int + 5) == receive_trace(events[0], events[1], reads)
            &&& receiver_message(receiver_run(receiver_start(root, key), events)) == Some(
                delivered(reads),
            )
        },
    decreases events.len(),
{
    if events.len() == 0 {
        Seq::empty()
    } else {
        let start = receiver_start(root, key);
        let before = events.drop_last();
        let event = events.last();
        let earlier = finished_receive_read_its_message(root, key, before);
        let was = receiver_run(start, before);
        assert(events =~= before.push(event));
        let end = seq![EventView::Bytes(Seq::<u8>::empty())];
        match was.stage {
            ReceiveStage::Opening => {
                if event is Done {
                    let head = seq![events[0], events[1], EventView::Done];
                    assert(events =~= head + earlier);
                    assert(was.buffer =~= delivered(earlier));
                }
                earlier
            },
            ReceiveStage::Reading => {
                let head = seq![events[0], events[1], EventView::Done];
                if event is Bytes && event->Bytes_0.len() > 0 {
                    let reads = earlier.push(event);
                    assert(reads.drop_last() =~= earlier);
                    assert(events =~= head + reads);
                    reads
                } else {
                    if event is Bytes {
                        assert(event->Bytes_0 =~= Seq::<u8>::empty());
                        assert(events =~= head + earlier + end);
                    }
                    earlier
                }
            },
            ReceiveStage::Removing => {
                if event is Done {
                    assert(events.take(earlier.len() as int + 5) =~= events);
                    assert(events =~= receive_trace(events[0], events[1], earlier));
                }
                earlier
            },
            ReceiveStage::Finished => {
                assert(events.take(earlier.len() as int + 5) =~= before.take(earlier.len() as int + 5));
                earlier
            },
            _ => earlier,
        }
    }
}

/// A receive never changes the root or the path that it started with.
pub proof fn receive_keeps_its_place(receiver: ReceiverView, events: Seq<EventView>)
    ensures
        receiver_run(receiver, events).root == receiver.root,
        receiver_run(receiver, events).path == receiver.path,
    decreases events.len(),
{
    if events.len() > 0 {
        receive_keeps_its_place(receiver, events.drop_last());
    }
}

/// Cleanup. Whatever nodes existed before and whatever the system reported
/// along the way, a receive that has finished has deleted its node: none
/// exists at its path.
pub proof fn finished_receive_leaves_no_node(
    root: Seq<u8>,
    key: Seq<u8>,
    nodes: Set<Seq<u8>>,
    events: Seq<EventView>,
)
    ensures
        receiver_run(receiver_start(root, key), events).stage == ReceiveStage::Finished
            ==> !nodes_after_receive(receiver_start(root, key), nodes, events).contains(
            pipe_path(root, key),
        ),
    decreases events.len(),
{
    if events.len() > 0 {
        finished_receive_leaves_no_node(root, key, nodes, events.drop_last());
        receive_keeps_its_place(receiver_start(root, key), events.drop_last());
    }
}

/// A receive asks for a deletion only after a read has returned no bytes,
/// which is how the closing of the write end shows, and only for the node
/// that its key names: no node is taken away while its message may still be
/// under way.
pub proof fn deletion_follows_the_end_of_the_message(
    root: Seq<u8>,
    key: Seq<u8>,
    events: Seq<EventView>,
)
    ensures
        receiver_action(receiver_run(receiver_start(root, key), events)) is Remove ==> {
            &&& events.len() > 0
            &&& events.last() == EventView::Bytes(Seq::empty())
            &&& receiver_action(receiver_run(receiver_start(root, key), events)) == (
            ActionView::Remove { path: pipe_path(root, key) })
        },
{
    let reads = finished_receive_read_its_message(root, key, events);
    receive_keeps_its_place(receiver_start(root, key), events);
}

/// Handshake. A send writes nothing, closes nothing and does not finish
/// before it has asked for its node to be opened for writing and that open
/// has succeeded. The open is the third action of a send, and it is the
/// system that holds it back until a reader has opened the node.
pub proof fn send_waits_for_the_open(
    root: Seq<u8>,
    key: Seq<u8>,
    message: Seq<u8>,
    events: Seq<EventView>,
)
    ensures
        ({
            let stage = sender_run(sender_start(root, key, message), events).stage;
            stage == SendStage::Writing || stage == SendStage::Closing || stage
                == SendStage::Finished ==> {
                &&& events.len() >= 3
                &&& events[2] is Done
                &&& sender_action(sender_run(sender_start(root, key, message), events.take(2)))
                    == (ActionView::OpenForWriting { path: pipe_path(root, key) })
            }
        }),
        match sender_run(sender_start(root, key, message), events).stage {
            SendStage::EnsuringRoot => events.len() == 0,
            SendStage::CreatingNode => events.len() == 1,
            SendStage::Opening => events.len() == 2,
            SendStage::Writing => events.len() == 3,
            SendStage::Closing => events.len() == 4,
            SendStage::Finished => events.len() >= 5,
            SendStage::Aborted(_) => events.len() >= 1,
        },
        sender_run(sender_start(root, key, message), events).path == pipe_path(root, key),
    decreases events.len(),
{
    if events.len() > 0 {
        let before = events.drop_last();
        send_waits_for_the_open(root, key, message, before);
        if before.len() == 2 {
            assert(events.take(2) =~= before);
        } else if before.len() > 2 {
            assert(events.take(2) =~= before.take(2));
        }
    }
}

/// Whether `event` is a success of the action of a send that comes at
/// `index`, counted from the first: the root and the node may be made or
/// found, the open, the write and the close must be done.
pub open spec fn send_step_succeeds(index: int, event: EventView) -> bool {
    if index < 2 {
        in_place(event)
    } else {
        event is Done
    }
}

/// The failure that a send is given up on when its action at `index` fails.
pub open spec fn send_failure_at(index: int) -> Failure {
    if index == 0 {
        Failure::DirectoryCreation
    } else if index == 1 {
        Failure::PipeCreation
    } else if index == 2 {
        Failure::Open
    } else {
        Failure::Write
    }
}

/// What the stage of a send from its start tells of the events that it
/// took, `steps` being the number of its actions that succeeded: every
/// stage but the last two has taken no other event, a finished send has
/// seen all five of its actions succeed, and an aborted one names the first
/// action that did not.
pub open spec fn send_history(
    root: Seq<u8>,
    key: Seq<u8>,
    message: Seq<u8>,
    events: Seq<EventView>,
    steps: int,
) -> bool {
    &&& 0 <= steps <= events.len()
    &&& forall|j: int| 0 <= j < steps ==> send_step_succeeds(j, #[trigger] events[j])
    &&& match sender_run(sender_start(root, key, message), events).stage {
        SendStage::EnsuringRoot => steps == 0 && events.len() == 0,
        SendStage::CreatingNode => steps == 1 && events.len() == 1,
        SendStage::Opening => steps == 2 && events.len() == 2,
        SendStage::Writing => steps == 3 && events.len() == 3,
        SendStage::Closing => steps == 4 && events.len() == 4,
        SendStage::Finished => steps == 5,
        SendStage::Aborted(failure) => steps < 5 && steps < events.len() && !send_step_succeeds(
            steps,
            events[steps],
        ) && failure == send_failure_at(steps),
    }
}

/// A send finishes exactly where nothing fails: its first five events are
/// successes of its five actions. Where one of them is not, the send is
/// given up on the first that is not, with the failure of that action, and
/// no later event changes that. The result is the number of actions that
/// succeeded.
pub proof fn send_finishes_where_nothing_fails(
    root: Seq<u8>,
    key: Seq<u8>,
    message: Seq<u8>,
    events: Seq<EventView>,
) -> (steps: int)
    ensures
        send_history(root, key, message, events, steps),
        sender_run(sender_start(root, key, message), events).stage == SendStage::Finished <==> (
        events.len() >= 5 && forall|j: int|
            0 <= j < 5 ==> send_step_succeeds(j, #[trigger] events[j])),
    decreases events.len(),
{
    if events.len() == 0 {
        0
    } else {
        let before = events.drop_last();
        let earlier = send_finishes_where_nothing_fails(root, key, message, before);
        let was = sender_run(sender_start(root, key, message), before).stage;
        let now = sender_run(sender_start(root, key, message), events).stage;
        assert(forall|j: int| 0 <= j < before.len() ==> before[j] == events[j]);
        let steps = if was != SendStage::Finished && !(was is Aborted) && !(now is Aborted) {
            earlier + 1
        } else {
            earlier
        };
        assert(send_history(root, key, message, events, steps));
        steps
    }
}

/// Reuse. Two exchanges under one key, the second begun after the first has
/// finished, both succeed: the first leaves no node behind, the second makes
/// its node anew, and each receive hands out exactly the message of its own
/// exchange, with no byte of the other.
pub proof fn reuse(
    root: Seq<u8>,
    key: Seq<u8>,
    nodes: Set<Seq<u8>>,
    first: Seq<u8>,
    first_reads: Seq<EventView>,
    second: Seq<u8>,
    second_reads: Seq<EventView>,
)
    requires
        all_chunks(first_reads),
        delivered(first_reads) == first,
        all_chunks(second_reads),
        delivered(second_reads) == second,
    ensures
        ({
            let path = pipe_path(root, key);
            let start = receiver_start(root, key);
            let first_trace = receive_trace(
                EventView::Done,
                creation_report(nodes, path),
                first_reads,
            );
            let between = nodes_after_receive(start, nodes, first_trace);
            let second_trace = receive_trace(
                EventView::Done,
                creation_report(between, path),
                second_reads,
            );
            &&& receiver_message(receiver_run(start, first_trace)) == Some(first)
            &&& !between.contains(path)
            &&& creation_report(between, path) is Done
            &&& receiver_message(receiver_run(start, second_trace)) == Some(second)
            &&& !nodes_after_receive(start, between, second_trace).contains(path)
        }),
{
    let path = pipe_path(root, key);
    let start = receiver_start(root, key);
    let first_trace = receive_trace(EventView::Done, creation_report(nodes, path), first_reads);
    round_trip(root, key, first, EventView::Done, creation_report(nodes, path), first_reads);
    finished_receive_leaves_no_node(root, key, nodes, first_trace);
    let between = nodes_after_receive(start, nodes, first_trace);
    let second_trace = receive_trace(
        EventView::Done,
        creation_report(between, path),
        second_reads,
    );
    round_trip(root, key, second, EventView::Done, creation_report(between, path), second_reads);
    finished_receive_leaves_no_node(root, key, between, second_trace);
}

} // verus!
