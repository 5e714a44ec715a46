//! The flag bit-set over the event lifecycle vocabulary, and the interface an
//! event-like object offers to listeners.
use vstd::prelude::*;

use crate::event::composed_path::{event_composed_path, has_target};
use crate::event::event::{
    event_cancel_bubble, event_cancel_bubble_result, event_inited, event_prevent_default,
    event_return_value, event_return_value_result, event_stop_immediate_propagation,
    event_stop_propagation, EventState,
};
use crate::event::event_target::TargetHandle;

verus! {

/// Bit-set of event lifecycle flags, stored in one machine word.
///
/// The view of a flag set is the word itself; each named flag below occupies
/// one distinct bit.
pub struct EventFlags(pub u16);

impl EventFlags {
    pub const STOP_PROPAGATION: u16 = 1;

    pub const STOP_IMMEDIATE_PROPAGATION: u16 = 2;

    pub const CANCELED: u16 = 4;

    pub const IN_PASSIVE_LISTENER: u16 = 8;

    pub const COMPOSED: u16 = 16;

    pub const INITIALIZED: u16 = 32;

    pub const DISPATCH: u16 = 64;

    /// Bitwise-or the given bits into the set.
    pub fn set(&mut self, flags: u16)
        ensures
            final(self).0 == old(self).0 | flags,
    {
        self.0 |= flags;
    }

    /// Remove exactly the given bits, whatever their prior state.
    pub fn remove(&mut self, flags: u16)
        ensures
            final(self).0 == old(self).0 & !flags,
    {
        self.0 &= !flags;
    }

    /// True when any of the given bits is set.
    pub fn is_set(&self, flag: u16) -> (r: bool)
        ensures
            r == (self.0 & flag != 0),
    {
        self.0 & flag != 0
    }

    /// True when none of the given bits is set.
    pub fn is_unset(&self, flag: u16) -> (r: bool)
        ensures
            r == (self.0 & flag == 0),
    {
        !self.is_set(flag)
    }
}

/// What an event-like object offers to listener code: the full read/mutate
/// surface of an event, specified against the same [`EventState`] model and
/// transition functions as [`crate::event::event::Event`] itself.
pub trait IEvent {
    /// The mathematical state of the event this object carries.
    spec fn state(&self) -> EventState;

    fn type_(&self) -> (r: &str)
        ensures
            r@ == self.state().event_type,
    ;

    fn target(&self) -> (r: Option<TargetHandle>)
        ensures
            r == self.state().target,
    ;

    /// Historical alias for `target`.
    fn src_element(&self) -> (r: Option<TargetHandle>)
        ensures
            r == self.state().target,
    {
        self.target()
    }

    fn current_target(&self) -> (r: Option<TargetHandle>)
        ensures
            r == self.state().current_target,
    ;

    fn composed_path(&self) -> (r: Vec<TargetHandle>)
        requires
            self.state().path.len() > 0 ==> self.state().current_target is Some && has_target(
                self.state().path,
                self.state().current_target.unwrap(),
            ),
        ensures
            r@ == event_composed_path(self.state()),
    ;

    fn event_phase(&self) -> (r: u8)
        ensures
            r == self.state().event_phase,
    ;

    fn stop_propagation(&mut self)
        ensures
            final(self).state() == event_stop_propagation(old(self).state()),
    ;

    fn cancel_bubble(&mut self, value: Option<bool>) -> (r: Option<bool>)
        ensures
            final(self).state() == event_cancel_bubble(old(self).state(), value),
            r == event_cancel_bubble_result(old(self).state(), value),
    ;

    fn stop_immediate_propagation(&mut self)
        ensures
            final(self).state() == event_stop_immediate_propagation(old(self).state()),
    ;

    fn bubbles(&self) -> (r: bool)
        ensures
            r == self.state().bubbles,
    ;

    fn cancelable(&self) -> (r: bool)
        ensures
            r == self.state().cancelable,
    ;

    fn return_value(&mut self, value: Option<bool>) -> (r: Option<bool>)
        ensures
            final(self).state() == event_return_value(old(self).state(), value),
            r == event_return_value_result(old(self).state(), value),
    ;

    fn prevent_default(&mut self)
        ensures
            final(self).state() == event_prevent_default(old(self).state()),
    ;

    fn default_prevented(&self) -> (r: bool)
        ensures
            r == self.state().canceled,
    ;

    fn composed(&self) -> (r: bool)
        ensures
            r == self.state().composed,
    ;

    fn is_trusted(&self) -> (r: bool)
        ensures
            r == self.state().is_trusted,
    ;

    fn time_stamp(&self) -> (r: u64)
        ensures
            r == self.state().time_stamp,
    ;

    fn init_event(&mut self, type_: &str, bubbles: bool, cancelable: bool)
        ensures
            final(self).state() == event_inited(old(self).state(), type_@, bubbles, cancelable),
    ;
}

} // verus!
