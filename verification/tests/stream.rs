use sd_mobile_core::boundary::{safe_cstring, Callback};
use sd_mobile_core::lifecycle::CoreState;
use sd_mobile_core::stream::{relay, Listener, Received, Relay};

fn ready() -> CoreState {
    let mut state = CoreState::new();
    state.publish();
    state
}

fn item(text: &str) -> Received {
    Received::Item(Ok(text.to_string()))
}

/// Hands `received` to the listener and collects what it delivers.
fn feed(listener: &mut Listener, received: Vec<Received>, delivered: &mut Vec<String>) {
    for r in received {
        match listener.on_received(r) {
            Relay::Deliver(text) => delivered.push(text.into_string()),
            Relay::Skip => {}
            Relay::Stop => {}
        }
    }
}

#[test]
fn relay_decides_by_the_item_alone() {
    assert_eq!(relay(item("{\"a\":1}")), Relay::Deliver(safe_cstring("{\"a\":1}")));
    assert_eq!(relay(item("a\0b")), Relay::Deliver(safe_cstring("ab")));
    assert_eq!(relay(Received::Item(Err("key must be a string".to_string()))), Relay::Skip);
    assert_eq!(relay(Received::Closed), Relay::Stop);
}

#[test]
fn registration_needs_an_initialized_core_and_a_callback() {
    let callback = Callback { function: 8, data: 0 };
    assert!(Listener::register(&CoreState::new(), callback).is_none());
    assert!(Listener::register(&ready(), Callback { function: 0, data: 8 }).is_none());
    let listener = Listener::register(&ready(), callback).unwrap();
    assert_eq!(listener.callback(), callback);
    assert!(listener.is_listening());
}

#[test]
fn items_are_delivered_in_order() {
    let mut listener = Listener::register(&ready(), Callback { function: 8, data: 0 }).unwrap();
    let mut delivered = Vec::new();
    feed(&mut listener, vec![item("1"), item("2"), item("3")], &mut delivered);
    assert_eq!(delivered, vec!["1", "2", "3"]);
    assert!(listener.is_listening());
}

#[test]
fn a_bad_item_is_dropped_and_the_next_one_still_arrives() {
    let mut listener = Listener::register(&ready(), Callback { function: 8, data: 0 }).unwrap();
    let mut delivered = Vec::new();
    feed(
        &mut listener,
        vec![item("1"), Received::Item(Err("bad".to_string())), item("3")],
        &mut delivered,
    );
    assert_eq!(delivered, vec!["1", "3"]);
    assert!(listener.is_listening());
}

#[test]
fn closure_ends_the_listening_for_good() {
    let mut listener = Listener::register(&ready(), Callback { function: 8, data: 0 }).unwrap();
    assert_eq!(listener.on_received(item("1")), Relay::Deliver(safe_cstring("1")));
    assert_eq!(listener.on_received(Received::Closed), Relay::Stop);
    assert!(!listener.is_listening());
    assert_eq!(listener.on_received(item("2")), Relay::Stop);
    assert_eq!(listener.on_received(Received::Item(Err("bad".to_string()))), Relay::Stop);
    assert!(!listener.is_listening());
}

#[test]
fn two_listeners_both_get_an_item_and_a_late_one_gets_no_replay() {
    let state = ready();
    // What the channel produced, in order; a listener receives what was
    // produced from its registration on.
    let produced = vec!["early", "shared", "late"];
    let mut first = Listener::register(&state, Callback { function: 8, data: 1 }).unwrap();
    let mut got_first = Vec::new();
    feed(&mut first, vec![item(produced[0])], &mut got_first);
    let mut second = Listener::register(&state, Callback { function: 16, data: 2 }).unwrap();
    let mut got_second = Vec::new();
    feed(&mut first, vec![item(produced[1])], &mut got_first);
    feed(&mut second, vec![item(produced[1])], &mut got_second);
    let mut third = Listener::register(&state, Callback { function: 24, data: 3 }).unwrap();
    let mut got_third = Vec::new();
    feed(&mut first, vec![item(produced[2])], &mut got_first);
    feed(&mut second, vec![item(produced[2])], &mut got_second);
    feed(&mut third, vec![item(produced[2])], &mut got_third);
    assert_eq!(got_first, vec!["early", "shared", "late"]);
    assert_eq!(got_second, vec!["shared", "late"]);
    assert_eq!(got_third, vec!["late"]);
}
