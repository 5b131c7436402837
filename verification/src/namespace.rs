//! A model of the shared directory: the set of paths at which a pipe node
//! exists, and what the actions of an exchange do to it. The library never
//! touches the directory; the model says what its actions mean there, so
//! that what an exchange leaves behind can be stated.

use vstd::prelude::*;
use crate::protocol::{ActionView, EventView};
use crate::receiver::{receiver_action, receiver_run, ReceiverView};

verus! {

/// The nodes that exist once `action` was performed with the outcome
/// `event`, where `nodes` existed before. A creation that succeeded adds its
/// node, a deletion that succeeded takes its node away, and nothing else
/// changes the directory.
pub open spec fn nodes_after(nodes: Set<Seq<u8>>, action: ActionView, event: EventView) -> Set<
    Seq<u8>,
> {
    match action {
        ActionView::CreateNode { path, .. } => if event is Done {
            nodes.insert(path)
        } else {
            nodes
        },
        ActionView::Remove { path } => if event is Done {
            nodes.remove(path)
        } else {
            nodes
        },
        _ => nodes,
    }
}

/// What the creation of a node at `path` reports where nothing else goes
/// wrong: that the node is there already, or that it was made.
pub open spec fn creation_report(nodes: Set<Seq<u8>>, path: Seq<u8>) -> EventView {
    if nodes.contains(path) {
        EventView::AlreadyExists
    } else {
        EventView::Done
    }
}

/// The nodes that exist once `receiver` has taken each of `events` in turn,
/// each being the outcome of the action that was due then.
pub open spec fn nodes_after_receive(
    receiver: ReceiverView,
    nodes: Set<Seq<u8>>,
    events: Seq<EventView>,
) -> Set<Seq<u8>>
    decreases events.len(),
{
    if events.len() == 0 {
        nodes
    } else {
        nodes_after(
            nodes_after_receive(receiver, nodes, events.drop_last()),
            receiver_action(receiver_run(receiver, events.drop_last())),
            events.last(),
        )
    }
}

} // verus!
