//! The vocabulary shared by both ends of an exchange: what a caller is asked
//! to do, what it reports back, and how an exchange can fail.

use vstd::prelude::*;
use crate::path::to_vec;

verus! {

/// The operation that failed when an exchange was aborted.
#[derive(Clone, Copy, Debug, PartialEq, Eq, Structural)]
pub enum Failure {
    /// The root directory could not be created.
    DirectoryCreation,
    /// The pipe node could not be created, for a reason other than its
    /// being there already.
    PipeCreation,
    /// The node could not be opened.
    Open,
    /// The message could not be written in full, or the write end could not
    /// be closed after it.
    Write,
    /// A read from the node failed.
    Read,
    /// The node could not be deleted after it was drained.
    Delete,
}

/// What the system reported of the action that was due.
#[derive(Debug)]
pub enum Event {
    /// The action succeeded.
    Done,
    /// Nothing was created because the directory or node was already there.
    AlreadyExists,
    /// The action failed for any other reason.
    Failed,
    /// A read returned these bytes; none at all means that the writer has
    /// closed its end.
    Bytes(Vec<u8>),
}

/// An [`Event`] as a mathematical value.
pub ghost enum EventView {
    Done,
    AlreadyExists,
    Failed,
    Bytes(Seq<u8>),
}

impl View for Event {
    type V = EventView;

    open spec fn view(&self) -> EventView {
        match self {
            Event::Done => EventView::Done,
            Event::AlreadyExists => EventView::AlreadyExists,
            Event::Failed => EventView::Failed,
            Event::Bytes(bytes) => EventView::Bytes(bytes@),
        }
    }
}

/// What the caller has to do next on behalf of an exchange.
#[derive(Debug)]
pub enum Action {
    /// Create the directory `root` and its missing parents; succeed silently
    /// where it is already there.
    CreateRoot { root: Vec<u8> },
    /// Create a FIFO special file at `path` with the permission bits `mode`.
    CreateNode { path: Vec<u8>, mode: u32 },
    /// Open the node at `path` for writing only, blocking until a reader
    /// opens it, and never creating a file where the node is missing.
    OpenForWriting { path: Vec<u8> },
    /// Open the node at `path` for reading only, blocking until a writer
    /// opens it.
    OpenForReading { path: Vec<u8> },
    /// Write all of `payload` to the open node.
    Write { payload: Vec<u8> },
    /// Close the write end, which tells the reader that the message is over.
    Close,
    /// Read once from the open node and report the bytes that came, as
    /// [`Event::Bytes`].
    Read,
    /// Delete the node at `path`.
    Remove { path: Vec<u8> },
    /// Nothing: the exchange is complete.
    Rest,
    /// Give up: `failure` names the operation that failed and `path` the
    /// directory or node it failed on.
    Abort { failure: Failure, path: Vec<u8> },
}

/// An [`Action`] as a mathematical value.
pub ghost enum ActionView {
    CreateRoot { root: Seq<u8> },
    CreateNode { path: Seq<u8>, mode: u32 },
    OpenForWriting { path: Seq<u8> },
    OpenForReading { path: Seq<u8> },
    Write { payload: Seq<u8> },
    Close,
    Read,
    Remove { path: Seq<u8> },
    Rest,
    Abort { failure: Failure, path: Seq<u8> },
}

impl View for Action {
    type V = ActionView;

    open spec fn view(&self) -> ActionView {
        match self {
            Action::CreateRoot { root } => ActionView::CreateRoot { root: root@ },
            Action::CreateNode { path, mode } => ActionView::CreateNode { path: path@, mode: *mode },
            Action::OpenForWriting { path } => ActionView::OpenForWriting { path: path@ },
            Action::OpenForReading { path } => ActionView::OpenForReading { path: path@ },
            Action::Write { payload } => ActionView::Write { payload: payload@ },
            Action::Close => ActionView::Close,
            Action::Read => ActionView::Read,
            Action::Remove { path } => ActionView::Remove { path: path@ },
            Action::Rest => ActionView::Rest,
            Action::Abort { failure, path } => ActionView::Abort { failure: *failure, path: path@ },
        }
    }
}

/// The events of `events` as mathematical values, in the same order.
pub open spec fn event_views(events: Seq<Event>) -> Seq<EventView> {
    events.map_values(|event: Event| event@)
}

/// Whether `event` reports that something asked for now exists: it was
/// created, or it was there before.
pub open spec fn in_place(event: EventView) -> bool {
    event is Done || event is AlreadyExists
}

/// The directory or node that a failure of kind `failure` is reported on:
/// the root where the directory could not be created, else the node.
pub open spec fn failure_site(failure: Failure, root: Seq<u8>, path: Seq<u8>) -> Seq<u8> {
    if failure == Failure::DirectoryCreation {
        root
    } else {
        path
    }
}

impl Event {
    /// Tells whether the event reports that what was asked for now exists.
    pub fn is_in_place(&self) -> (yes: bool)
        ensures
            yes == in_place(self@),
    {
        match self {
            Event::Done => true,
            Event::AlreadyExists => true,
            _ => false,
        }
    }

    /// Tells whether the event reports plain success.
    pub fn is_done(&self) -> (yes: bool)
        ensures
            yes == (self@ is Done),
    {
        match self {
            Event::Done => true,
            _ => false,
        }
    }
}

/// The action that gives up on `failure`, naming the place it failed on.
pub fn abort(failure: Failure, root: &[u8], path: &[u8]) -> (action: Action)
    ensures
        action@ == (ActionView::Abort { failure, path: failure_site(failure, root@, path@) }),
{
    match failure {
        Failure::DirectoryCreation => Action::Abort { failure, path: to_vec(root) },
        _ => Action::Abort { failure, path: to_vec(path) },
    }
}

} // verus!
