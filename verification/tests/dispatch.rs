use blitz_canvas::dispatch::{dispatch, Invocation, ListenerOutcome};
use blitz_canvas::events::EventKind;
use blitz_canvas::registry::ListenerRegistry;

fn done(stop: bool, prevent: bool) -> ListenerOutcome {
    ListenerOutcome::Completed { stop_propagation: stop, prevent_default: prevent }
}

#[test]
fn prevent_default_halts_the_chain() {
    // Chain [n3, n2, n1]: n2's sole listener sets default-prevented, so no
    // listener on n1 is invoked.
    let mut reg = ListenerRegistry::new();
    reg.add_listener(3, "click", 31).unwrap();
    reg.add_listener(2, "click", 21).unwrap();
    reg.add_listener(1, "click", 11).unwrap();
    let chain = vec![3u64, 2, 1];
    // First invocation (n3's listener) completes quietly; the second (n2's
    // sole listener) prevents the default.
    let outcomes = vec![done(false, false), done(false, true)];
    let r = dispatch(&chain, EventKind::Click, &reg, &outcomes);
    assert_eq!(
        r.invoked,
        vec![
            Invocation { node: 3, callback: 31 },
            Invocation { node: 2, callback: 21 },
        ]
    );
    assert!(r.state.default_prevented);
    assert!(!r.state.propagation_stopped);
}

#[test]
fn stop_propagation_is_recorded_but_not_terminal() {
    // Chain [n3, n2]: n3's first listener stops propagation (not default);
    // n3's second listener still runs, and dispatch still proceeds to n2.
    let mut reg = ListenerRegistry::new();
    reg.add_listener(3, "click", 31).unwrap();
    reg.add_listener(3, "click", 32).unwrap();
    reg.add_listener(2, "click", 21).unwrap();
    let chain = vec![3u64, 2];
    let outcomes = vec![done(true, false)];
    let r = dispatch(&chain, EventKind::Click, &reg, &outcomes);
    assert_eq!(
        r.invoked,
        vec![
            Invocation { node: 3, callback: 31 },
            Invocation { node: 3, callback: 32 },
            Invocation { node: 2, callback: 21 },
        ]
    );
    assert!(r.state.propagation_stopped);
    assert!(!r.state.default_prevented);
}

#[test]
fn prevent_default_stops_within_the_same_node() {
    let mut reg = ListenerRegistry::new();
    reg.add_listener(3, "click", 31).unwrap();
    reg.add_listener(3, "click", 32).unwrap();
    let chain = vec![3u64];
    let outcomes = vec![done(false, true)];
    let r = dispatch(&chain, EventKind::Click, &reg, &outcomes);
    assert_eq!(r.invoked, vec![Invocation { node: 3, callback: 31 }]);
    assert!(r.state.default_prevented);
}

#[test]
fn failed_invocations_are_contained() {
    // A listener invocation error is recorded and does not abort dispatch.
    let mut reg = ListenerRegistry::new();
    reg.add_listener(3, "keydown", 31).unwrap();
    reg.add_listener(2, "keydown", 21).unwrap();
    let chain = vec![3u64, 2];
    let outcomes = vec![ListenerOutcome::Failed];
    let r = dispatch(&chain, EventKind::KeyDown, &reg, &outcomes);
    assert_eq!(r.invoked.len(), 2);
    assert!(!r.state.propagation_stopped);
    assert!(!r.state.default_prevented);
}

#[test]
fn listeners_run_in_chain_and_registration_order() {
    let mut reg = ListenerRegistry::new();
    reg.add_listener(7, "wheel", 1).unwrap();
    reg.add_listener(7, "wheel", 2).unwrap();
    reg.add_listener(8, "wheel", 3).unwrap();
    let chain = vec![7u64, 8];
    let r = dispatch(&chain, EventKind::Wheel, &reg, &Vec::new());
    assert_eq!(
        r.invoked,
        vec![
            Invocation { node: 7, callback: 1 },
            Invocation { node: 7, callback: 2 },
            Invocation { node: 8, callback: 3 },
        ]
    );
}

#[test]
fn nodes_without_listeners_are_skipped() {
    let mut reg = ListenerRegistry::new();
    reg.add_listener(8, "click", 3).unwrap();
    let chain = vec![7u64, 8, 9];
    let r = dispatch(&chain, EventKind::Click, &reg, &Vec::new());
    assert_eq!(r.invoked, vec![Invocation { node: 8, callback: 3 }]);
}

#[test]
fn only_matching_kind_listeners_run() {
    let mut reg = ListenerRegistry::new();
    reg.add_listener(7, "click", 1).unwrap();
    reg.add_listener(7, "keyup", 2).unwrap();
    let chain = vec![7u64];
    let r = dispatch(&chain, EventKind::KeyUp, &reg, &Vec::new());
    assert_eq!(r.invoked, vec![Invocation { node: 7, callback: 2 }]);
}
