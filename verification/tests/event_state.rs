use dom_events::event::event::Event;
use dom_events::event::event_init::EventInit;
use dom_events::event::event_traits::EventFlags;

#[test]
fn new_event_has_spec_defaults() {
    let ev = Event::new("click", None);
    assert_eq!(ev.type_(), "click");
    assert_eq!(ev.bubbles(), false);
    assert_eq!(ev.cancelable(), false);
    assert_eq!(ev.composed(), false);
    assert_eq!(ev.is_trusted(), false);
    assert_eq!(ev.default_prevented(), false);
    assert_eq!(ev.time_stamp(), 0);
    assert_eq!(ev.event_phase(), Event::NONE);
    assert!(ev.target().is_none());
    assert!(ev.src_element().is_none());
    assert!(ev.current_target().is_none());
}

#[test]
fn new_event_takes_init_dictionary() {
    let init = EventInit { bubbles: true, cancelable: true, composed: true };
    let ev = Event::new("scroll", Some(init));
    assert!(ev.bubbles());
    assert!(ev.cancelable());
    assert!(ev.composed());
    assert!(!ev.default_prevented());
}

#[test]
fn phase_constants_follow_the_dispatch_order() {
    assert_eq!(Event::NONE, 0);
    assert_eq!(Event::CAPTURING_PHASE, 1);
    assert_eq!(Event::AT_TARGET, 2);
    assert_eq!(Event::BUBBLING_PHASE, 3);
    let mut ev = Event::new("click", None);
    ev._event_phase = Event::AT_TARGET;
    assert_eq!(ev.event_phase(), Event::AT_TARGET);
}

#[test]
fn stop_propagation_is_what_cancel_bubble_reports() {
    let mut ev = Event::new("click", None);
    assert_eq!(ev.cancel_bubble(None), Some(false));
    ev.stop_propagation();
    assert_eq!(ev.cancel_bubble(None), Some(true));
}

#[test]
fn cancel_bubble_true_sets_and_false_is_a_no_op() {
    let mut ev = Event::new("click", None);
    assert_eq!(ev.cancel_bubble(Some(false)), None);
    assert_eq!(ev.cancel_bubble(None), Some(false));
    assert_eq!(ev.cancel_bubble(Some(true)), None);
    assert_eq!(ev.cancel_bubble(None), Some(true));
    // Setting it back to false does not undo the stop.
    assert_eq!(ev.cancel_bubble(Some(false)), None);
    assert_eq!(ev.cancel_bubble(None), Some(true));
}

#[test]
fn stop_immediate_propagation_sets_both_flags() {
    let mut ev = Event::new("click", None);
    ev.stop_immediate_propagation();
    assert!(ev._flags.is_set(EventFlags::STOP_PROPAGATION));
    assert!(ev._flags.is_set(EventFlags::STOP_IMMEDIATE_PROPAGATION));
    assert_eq!(ev.cancel_bubble(None), Some(true));
}

#[test]
fn return_value_setter_is_gated() {
    // Not cancelable: requesting cancellation does nothing.
    let mut plain = Event::new("click", None);
    assert_eq!(plain.return_value(Some(false)), None);
    assert_eq!(plain.default_prevented(), false);

    // Cancelable, no passive-listener flag: cancellation takes effect.
    let init = EventInit { bubbles: false, cancelable: true, composed: false };
    let mut cancelable = Event::new("click", Some(init));
    assert_eq!(cancelable.return_value(Some(false)), None);
    assert_eq!(cancelable.default_prevented(), true);
}

#[test]
fn return_value_getter_negates_the_canceled_flag() {
    let init = EventInit { bubbles: false, cancelable: true, composed: false };
    let mut ev = Event::new("click", Some(init));
    assert_eq!(ev.return_value(None), Some(true));
    ev.prevent_default();
    assert_eq!(ev.return_value(None), Some(false));
}

#[test]
fn return_value_respects_passive_listener_flag() {
    let init = EventInit { bubbles: false, cancelable: true, composed: false };
    let mut ev = Event::new("click", Some(init));
    ev._flags.set(EventFlags::IN_PASSIVE_LISTENER);
    assert_eq!(ev.return_value(Some(false)), None);
    assert_eq!(ev.default_prevented(), false);
}

#[test]
fn prevent_default_ignores_passive_listener_flag() {
    let mut ev = Event::new("click", None);
    ev._flags.set(EventFlags::IN_PASSIVE_LISTENER);
    ev.prevent_default();
    assert_eq!(ev.default_prevented(), true);
}

#[test]
fn prevent_default_needs_no_cancelable() {
    let mut ev = Event::new("click", None);
    assert!(!ev.cancelable());
    ev.prevent_default();
    assert!(ev.default_prevented());
}

#[test]
fn init_event_is_a_no_op_during_dispatch() {
    let init = EventInit { bubbles: true, cancelable: true, composed: false };
    let mut ev = Event::new("click", Some(init));
    ev.stop_propagation();
    ev._flags.set(EventFlags::DISPATCH);
    let flags_before = ev._flags.0;

    ev.init_event("other", false, false);

    assert_eq!(ev.type_(), "click");
    assert_eq!(ev.bubbles(), true);
    assert_eq!(ev.cancelable(), true);
    assert_eq!(ev._flags.0, flags_before);
}

#[test]
fn init_event_reinitializes_outside_dispatch() {
    let mut ev = Event::new("click", None);
    ev.stop_propagation();
    ev.stop_immediate_propagation();
    ev.prevent_default();
    ev._is_trusted = true;

    ev.init_event("other", true, true);

    assert_eq!(ev.type_(), "other");
    assert!(ev.bubbles());
    assert!(ev.cancelable());
    assert!(!ev.is_trusted());
    assert!(ev.target().is_none());
    assert!(ev._flags.is_set(EventFlags::INITIALIZED));
    assert!(ev._flags.is_unset(EventFlags::STOP_PROPAGATION));
    assert!(ev._flags.is_unset(EventFlags::STOP_IMMEDIATE_PROPAGATION));
    assert!(ev._flags.is_unset(EventFlags::CANCELED));
    assert_eq!(ev.cancel_bubble(None), Some(false));
    assert_eq!(ev.default_prevented(), false);
}
