use blitz_canvas::events::{kind_to_str, str_to_kind, EventKind};

const ALL_KINDS: [EventKind; 28] = [
    EventKind::PointerMove,
    EventKind::PointerDown,
    EventKind::PointerUp,
    EventKind::PointerEnter,
    EventKind::PointerLeave,
    EventKind::PointerOver,
    EventKind::PointerOut,
    EventKind::MouseMove,
    EventKind::MouseDown,
    EventKind::MouseUp,
    EventKind::MouseEnter,
    EventKind::MouseLeave,
    EventKind::MouseOver,
    EventKind::MouseOut,
    EventKind::Scroll,
    EventKind::Wheel,
    EventKind::Click,
    EventKind::ContextMenu,
    EventKind::DoubleClick,
    EventKind::KeyPress,
    EventKind::KeyDown,
    EventKind::KeyUp,
    EventKind::Input,
    EventKind::Ime,
    EventKind::Focus,
    EventKind::Blur,
    EventKind::FocusIn,
    EventKind::FocusOut,
];

#[test]
fn kind_names_round_trip() {
    for k in ALL_KINDS {
        let name = kind_to_str(k);
        assert_eq!(str_to_kind(name), Some(k));
    }
}

#[test]
fn recognized_names_parse() {
    assert_eq!(str_to_kind("pointerdown"), Some(EventKind::PointerDown));
    assert_eq!(str_to_kind("wheel"), Some(EventKind::Wheel));
    assert_eq!(str_to_kind("composition"), Some(EventKind::Ime));
    assert_eq!(str_to_kind("dblclick"), Some(EventKind::DoubleClick));
    assert_eq!(str_to_kind("focusout"), Some(EventKind::FocusOut));
}

#[test]
fn unrecognized_names_are_rejected() {
    assert_eq!(str_to_kind("bogus-kind"), None);
    assert_eq!(str_to_kind(""), None);
    assert_eq!(str_to_kind("POINTERDOWN"), None);
    assert_eq!(str_to_kind("pointerdown "), None);
}

#[test]
fn discriminants_are_stable_and_distinct() {
    let mut seen = [false; 28];
    for k in ALL_KINDS {
        let d = k.discriminant() as usize;
        assert!(d < 28);
        assert!(!seen[d]);
        seen[d] = true;
    }
    assert_eq!(EventKind::PointerMove.discriminant(), 0);
    assert_eq!(EventKind::FocusOut.discriminant(), 27);
}

#[test]
fn names_are_exact_strings() {
    assert_eq!(kind_to_str(EventKind::Ime), "composition");
    assert_eq!(kind_to_str(EventKind::DoubleClick), "dblclick");
    assert_eq!(kind_to_str(EventKind::ContextMenu), "contextmenu");
}
