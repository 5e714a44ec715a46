//! The initialization dictionary handed to the event constructor.
use vstd::prelude::*;

verus! {

/// Construction-time choices for an event: whether it bubbles, whether it can
/// be canceled, and whether it crosses encapsulation boundaries.
#[derive(Clone, Copy, PartialEq, Eq, Structural, Debug)]
pub struct EventInit {
    pub bubbles: bool,
    pub cancelable: bool,
    pub composed: bool,
}

impl EventInit {
    /// The empty dictionary: every member defaults to false.
    pub fn new() -> (r: EventInit)
        ensures
            r == (EventInit { bubbles: false, cancelable: false, composed: false }),
    {
        EventInit { bubbles: false, cancelable: false, composed: false }
    }
}

} // verus!
