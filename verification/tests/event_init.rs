use dom_events::event::event_init::EventInit;

#[test]
fn it_should_create_an_empty_dict() {
    let event_init_dict = EventInit::new();

    assert_eq!(event_init_dict.bubbles, false);
    assert_eq!(event_init_dict.cancelable, false);
    assert_eq!(event_init_dict.composed, false);
}
