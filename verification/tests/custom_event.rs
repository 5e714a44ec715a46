use dom_events::event::custom_event::{CustomEvent, CustomEventInit};
use dom_events::event::event_traits::{EventFlags, IEvent};

#[test]
fn custom_event_init_defaults_to_empty() {
    let dict: CustomEventInit<u32> = CustomEventInit::new();
    assert_eq!(dict.bubbles, false);
    assert_eq!(dict.cancelable, false);
    assert_eq!(dict.composed, false);
    assert!(dict.detail.is_none());
}

#[test]
fn custom_event_without_dictionary_has_defaults() {
    let ev: CustomEvent<u32> = CustomEvent::new("ping", None);
    assert_eq!(ev.type_(), "ping");
    assert!(!ev.bubbles());
    assert!(!ev.cancelable());
    assert!(!ev.composed());
    assert!(ev._detail.is_none());
}

#[test]
fn custom_event_keeps_its_detail() {
    let dict = CustomEventInit {
        bubbles: true,
        cancelable: true,
        composed: false,
        detail: Some(42u32),
    };
    let ev = CustomEvent::new("ping", Some(dict));
    assert_eq!(ev.type_(), "ping");
    assert!(ev.bubbles());
    assert!(ev.cancelable());
    assert!(!ev.composed());
    assert_eq!(ev._detail, Some(42));
}

#[test]
fn init_custom_event_replaces_type_and_detail() {
    let mut ev: CustomEvent<u32> = CustomEvent::new("ping", None);
    ev.init_custom_event("pong", true, false, Some(7));
    assert_eq!(ev.type_(), "pong");
    assert!(ev.bubbles());
    assert!(!ev.cancelable());
    assert_eq!(ev._detail, Some(7));
}

#[test]
fn init_custom_event_is_a_no_op_during_dispatch() {
    let mut ev: CustomEvent<u32> = CustomEvent::new("ping", None);
    ev.event._flags.set(EventFlags::DISPATCH);
    ev.init_custom_event("pong", true, true, Some(7));
    assert_eq!(ev.type_(), "ping");
    assert!(!ev.bubbles());
    assert!(!ev.cancelable());
    assert!(ev._detail.is_none());
}

#[test]
fn custom_event_listener_surface_matches_the_event() {
    let mut ev: CustomEvent<u32> = CustomEvent::new("ping", None);
    assert_eq!(ev.event_phase(), 0);
    assert_eq!(ev.time_stamp(), 0);
    assert!(!ev.is_trusted());
    assert!(ev.target().is_none());
    assert!(ev.src_element().is_none());
    assert!(ev.current_target().is_none());
    assert!(ev.composed_path().is_empty());

    assert_eq!(ev.cancel_bubble(None), Some(false));
    ev.stop_propagation();
    assert_eq!(ev.cancel_bubble(None), Some(true));

    assert_eq!(ev.return_value(None), Some(true));
    ev.prevent_default();
    assert!(ev.default_prevented());
    assert_eq!(ev.return_value(None), Some(false));

    ev.stop_immediate_propagation();
    assert!(ev.event._flags.is_set(EventFlags::STOP_IMMEDIATE_PROPAGATION));

    ev.init_event("pong", true, true);
    assert_eq!(ev.type_(), "pong");
    assert!(!ev.default_prevented());
    assert_eq!(ev.cancel_bubble(None), Some(false));
}
