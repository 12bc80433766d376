use blitz_canvas::events::{kind_to_str, str_to_kind, EventKind};
use blitz_canvas::node::BlitzNode;
use blitz_canvas::registry::ListenerRegistry;
use blitz_canvas::EngineError;

const ALL_KINDS: [EventKind; 28] = [
    EventKind::PointerMove,
    EventKind::PointerDown,
    EventKind::PointerUp,
    EventKind::PointerEnter,
    EventKind::PointerLeave,
    EventKind::PointerOver,
    EventKind::PointerOut,
    EventKind::MouseMove,
    EventKind::MouseDown,
    EventKind::MouseUp,
    EventKind::MouseEnter,
    EventKind::MouseLeave,
    EventKind::MouseOver,
    EventKind::MouseOut,
    EventKind::Scroll,
    EventKind::Wheel,
    EventKind::Click,
    EventKind::ContextMenu,
    EventKind::DoubleClick,
    EventKind::KeyPress,
    EventKind::KeyDown,
    EventKind::KeyUp,
    EventKind::Input,
    EventKind::Ime,
    EventKind::Focus,
    EventKind::Blur,
    EventKind::FocusIn,
    EventKind::FocusOut,
];

#[test]
fn add_then_remove_leaves_slot_without_callback() {
    // For every recognized event-kind string: register, then remove the same
    // callback; the slot no longer holds it.
    for k in ALL_KINDS {
        let name = kind_to_str(k);
        let mut reg = ListenerRegistry::new();
        reg.add_listener(9, name, 77).unwrap();
        reg.remove_listener(9, name, 77).unwrap();
        let slot = reg.listeners_of(9, k);
        assert!(!slot.contains(&77));
        assert!(slot.is_empty());
    }
}

#[test]
fn bogus_kind_fails_with_invalid_event_kind() {
    let mut reg = ListenerRegistry::new();
    assert_eq!(
        reg.add_listener(4, "bogus-kind", 5),
        Err(EngineError::InvalidEventKind)
    );
    assert_eq!(
        reg.remove_listener(4, "bogus-kind", 5),
        Err(EngineError::InvalidEventKind)
    );
}

#[test]
fn registration_order_is_preserved_and_duplicates_allowed() {
    let mut reg = ListenerRegistry::new();
    reg.add_listener(2, "click", 10).unwrap();
    reg.add_listener(2, "click", 11).unwrap();
    reg.add_listener(2, "click", 10).unwrap();
    assert_eq!(reg.listeners_of(2, EventKind::Click), vec![10, 11, 10]);
}

#[test]
fn removal_deletes_every_equal_entry() {
    let mut reg = ListenerRegistry::new();
    reg.add_listener(2, "click", 10).unwrap();
    reg.add_listener(2, "click", 11).unwrap();
    reg.add_listener(2, "click", 10).unwrap();
    reg.remove_listener(2, "click", 10).unwrap();
    assert_eq!(reg.listeners_of(2, EventKind::Click), vec![11]);
}

#[test]
fn removal_of_absent_callback_is_a_no_op() {
    let mut reg = ListenerRegistry::new();
    reg.add_listener(2, "click", 10).unwrap();
    reg.remove_listener(2, "click", 99).unwrap();
    reg.remove_listener(3, "click", 10).unwrap();
    assert_eq!(reg.listeners_of(2, EventKind::Click), vec![10]);
}

#[test]
fn slots_are_keyed_by_node_and_kind() {
    // Never two independent lists for the same (node, kind) key, and no
    // spill-over between keys.
    let mut reg = ListenerRegistry::new();
    reg.add_listener(1, "click", 10).unwrap();
    reg.add_listener(1, "keydown", 20).unwrap();
    reg.add_listener(2, "click", 30).unwrap();
    assert_eq!(reg.listeners_of(1, EventKind::Click), vec![10]);
    assert_eq!(reg.listeners_of(1, EventKind::KeyDown), vec![20]);
    assert_eq!(reg.listeners_of(2, EventKind::Click), vec![30]);
    assert_eq!(reg.listeners_of(2, EventKind::KeyDown), Vec::<u64>::new());
}

#[test]
fn node_handle_forwards_to_registry() {
    let mut reg = ListenerRegistry::new();
    let node = BlitzNode(5);
    node.add_event_listener(&mut reg, "wheel", 42).unwrap();
    assert_eq!(reg.listeners_of(5, EventKind::Wheel), vec![42]);
    node.remove_event_listener(&mut reg, "wheel", 42).unwrap();
    assert!(reg.listeners_of(5, EventKind::Wheel).is_empty());
    assert_eq!(
        node.add_event_listener(&mut reg, "no-such-kind", 42),
        Err(EngineError::InvalidEventKind)
    );
    assert_eq!(str_to_kind("wheel"), Some(EventKind::Wheel));
}
