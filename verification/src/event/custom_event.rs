//! An event carrying a caller-supplied detail value.
use vstd::prelude::*;

use crate::event::event::{event_created, event_inited, Event, EventState};
use crate::event::event_init::EventInit;
use crate::event::event_target::TargetHandle;
use crate::event::event_traits::{EventFlags, IEvent};

verus! {

/// Construction-time choices for a custom event, plus the caller's detail
/// value. The detail is opaque to this core.
pub struct CustomEventInit<D> {
    pub bubbles: bool,
    pub cancelable: bool,
    pub composed: bool,
    pub detail: Option<D>,
}

impl<D> CustomEventInit<D> {
    /// The empty dictionary: every member defaults to false, no detail.
    pub fn new() -> (r: Self)
        ensures
            !r.bubbles,
            !r.cancelable,
            !r.composed,
            r.detail is None,
    {
        Self { bubbles: false, cancelable: false, composed: false, detail: None }
    }
}

/// The dictionary actually used by construction: the one given, or the empty
/// dictionary when none was.
pub open spec fn custom_init_or_default<D>(dict: Option<CustomEventInit<D>>) -> CustomEventInit<
    D,
> {
    match dict {
        Some(d) => d,
        None => CustomEventInit { bubbles: false, cancelable: false, composed: false, detail: None },
    }
}

/// The plain-event part of a custom dictionary.
pub open spec fn custom_init_base<D>(d: CustomEventInit<D>) -> EventInit {
    EventInit { bubbles: d.bubbles, cancelable: d.cancelable, composed: d.composed }
}

/// An event with an attached detail value. The event state behaves exactly
/// as a plain [`Event`]; the detail is stored at construction or
/// reinitialization and handed back as it came.
pub struct CustomEvent<D> {
    pub event: Event,
    pub _detail: Option<D>,
}

impl<D> CustomEvent<D> {
    /// Create a custom event of the given type; a missing dictionary means
    /// the empty one.
    pub fn new(type_: &str, event_init_dict: Option<CustomEventInit<D>>) -> (r: Self)
        ensures
            r.event@ == event_created(type_@, custom_init_base(custom_init_or_default(event_init_dict))),
            r._detail == custom_init_or_default(event_init_dict).detail,
    {
        let dict = match event_init_dict {
            None => CustomEventInit::new(),
            Some(dict) => dict,
        };
        let event = Event::new(
            type_,
            Some(
                EventInit {
                    bubbles: dict.bubbles,
                    cancelable: dict.cancelable,
                    composed: dict.composed,
                },
            ),
        );
        CustomEvent { event, _detail: dict.detail }
    }

    /// Reinitialize the custom event. Does nothing at all while a dispatch is
    /// in progress; otherwise reinitializes the event part and stores the
    /// given detail.
    pub fn init_custom_event(
        &mut self,
        type_: &str,
        bubbles: bool,
        cancelable: bool,
        detail: Option<D>,
    )
        ensures
            final(self).event@ == event_inited(old(self).event@, type_@, bubbles, cancelable),
            old(self).event@.dispatch ==> final(self)._detail == old(self)._detail,
            !old(self).event@.dispatch ==> final(self)._detail == detail,
    {
        if self.event._flags.is_set(EventFlags::DISPATCH) {
            return ;
        }
        self.event.init_event(type_, bubbles, cancelable);
        self._detail = detail;
    }
}

impl<D> IEvent for CustomEvent<D> {
    open spec fn state(&self) -> EventState {
        self.event@
    }

    fn type_(&self) -> (r: &str) {
        self.event.type_()
    }

    fn target(&self) -> (r: Option<TargetHandle>) {
        self.event.target()
    }

    fn current_target(&self) -> (r: Option<TargetHandle>) {
        self.event.current_target()
    }

    fn composed_path(&self) -> (r: Vec<TargetHandle>) {
        self.event.composed_path()
    }

    fn event_phase(&self) -> (r: u8) {
        self.event.event_phase()
    }

    fn stop_propagation(&mut self) {
        self.event.stop_propagation()
    }

    fn cancel_bubble(&mut self, value: Option<bool>) -> (r: Option<bool>) {
        self.event.cancel_bubble(value)
    }

    fn stop_immediate_propagation(&mut self) {
        self.event.stop_immediate_propagation()
    }

    fn bubbles(&self) -> (r: bool) {
        self.event.bubbles()
    }

    fn cancelable(&self) -> (r: bool) {
        self.event.cancelable()
    }

    fn return_value(&mut self, value: Option<bool>) -> (r: Option<bool>) {
        self.event.return_value(value)
    }

    fn prevent_default(&mut self) {
        self.event.prevent_default()
    }

    fn default_prevented(&self) -> (r: bool) {
        self.event.default_prevented()
    }

    fn composed(&self) -> (r: bool) {
        self.event.composed()
    }

    fn is_trusted(&self) -> (r: bool) {
        self.event.is_trusted()
    }

    fn time_stamp(&self) -> (r: u64) {
        self.event.time_stamp()
    }

    fn init_event(&mut self, type_: &str, bubbles: bool, cancelable: bool) {
        self.event.init_event(type_, bubbles, cancelable)
    }
}

} // verus!
