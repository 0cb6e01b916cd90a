//! What the bar tells a block.

use vstd::prelude::*;

verus! {

/// Mathematical content of a [`BlockEvent`].
pub enum BlockEventView {
    Action(Seq<char>),
    UpdateRequest,
}

/// An instruction delivered to one block instance.
#[derive(Debug, PartialEq, Eq)]
pub enum BlockEvent {
    /// A named action the user triggered, for instance through a click.
    Action(String),
    /// A demand to refresh now.
    UpdateRequest,
}

impl View for BlockEvent {
    type V = BlockEventView;

    open spec fn view(&self) -> BlockEventView {
        match self {
            BlockEvent::Action(name) => BlockEventView::Action(name@),
            BlockEvent::UpdateRequest => BlockEventView::UpdateRequest,
        }
    }
}

impl Clone for BlockEvent {
    fn clone(&self) -> (e: BlockEvent)
        ensures
            e@ == self@,
    {
        match self {
            BlockEvent::Action(name) => BlockEvent::Action(name.clone()),
            BlockEvent::UpdateRequest => BlockEvent::UpdateRequest,
        }
    }
}

impl BlockEvent {
    /// Whether this event demands a refresh.
    pub fn is_update_request(&self) -> (b: bool)
        ensures
            b == (self@ == BlockEventView::UpdateRequest),
    {
        match self {
            BlockEvent::Action(_) => false,
            BlockEvent::UpdateRequest => true,
        }
    }
}

} // verus!
