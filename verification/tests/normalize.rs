use blitz_canvas::events::EventKind;
use blitz_canvas::normalize::{
    normalize_key, normalize_pointer, normalize_wheel, HostKeyInput, HostPointerInput,
    HostWheelInput, KeyLocation, KeyState, MouseButton, Modifiers, PointerId, UiEvent, WheelDelta,
};

fn pointer_input() -> HostPointerInput {
    HostPointerInput {
        event_type: "pointerdown".to_owned(),
        pointer_type: "mouse".to_owned(),
        pointer_id: 0,
        is_primary: true,
        button: 0,
        buttons: 0,
        page_x: 100,
        page_y: 200,
        client_x: 110,
        client_y: 210,
        screen_x: 500,
        screen_y: 600,
        alt: false,
        ctrl: false,
        shift: false,
        meta: false,
    }
}

fn wheel_input() -> HostWheelInput {
    HostWheelInput {
        delta_mode: 0,
        delta_x: 3,
        delta_y: -7,
        buttons: 0,
        page_x: 10,
        page_y: 20,
        client_x: 10,
        client_y: 20,
        screen_x: 10,
        screen_y: 20,
        alt: false,
        ctrl: false,
        shift: false,
        meta: false,
    }
}

fn key_input() -> HostKeyInput {
    HostKeyInput {
        event_type: "keydown".to_owned(),
        key: "a".to_owned(),
        code: "KeyA".to_owned(),
        location: 0,
        repeat: false,
        is_composing: false,
        alt: false,
        ctrl: false,
        shift: false,
        meta: false,
    }
}

#[test]
fn pointer_coordinates_are_translated_by_the_content_origin() {
    let ev = normalize_pointer(&pointer_input(), 30, 40);
    match ev {
        UiEvent::PointerDown(d) => {
            assert_eq!(d.coords.page_x, 70);
            assert_eq!(d.coords.page_y, 160);
            assert_eq!(d.coords.client_x, 80);
            assert_eq!(d.coords.client_y, 170);
            // Screen coordinates pass through unmodified.
            assert_eq!(d.coords.screen_x, 500);
            assert_eq!(d.coords.screen_y, 600);
        },
        _ => panic!("a pointerdown event normalizes to PointerDown"),
    }
}

#[test]
fn pointer_type_and_variant_fall_back() {
    let mut input = pointer_input();
    input.event_type = "pointerhover".to_owned();
    input.pointer_type = "eyetracker".to_owned();
    match normalize_pointer(&input, 0, 0) {
        UiEvent::PointerMove(d) => assert_eq!(d.id, PointerId::Mouse),
        _ => panic!("unrecognized pointer event types normalize to a move"),
    }
}

#[test]
fn touch_pointers_keep_their_host_id() {
    let mut input = pointer_input();
    input.pointer_type = "touch".to_owned();
    input.pointer_id = 42;
    input.event_type = "pointerup".to_owned();
    match normalize_pointer(&input, 0, 0) {
        UiEvent::PointerUp(d) => assert_eq!(d.id, PointerId::Finger(42)),
        _ => panic!("a pointerup event normalizes to PointerUp"),
    }
}

#[test]
fn button_codes_map_with_main_fallback() {
    let cases = [
        (0, MouseButton::Main),
        (1, MouseButton::Auxiliary),
        (2, MouseButton::Secondary),
        (3, MouseButton::Fourth),
        (4, MouseButton::Fifth),
        (5, MouseButton::Main),
        (-1, MouseButton::Main),
    ];
    for (code, expected) in cases {
        let mut input = pointer_input();
        input.button = code;
        match normalize_pointer(&input, 0, 0) {
            UiEvent::PointerDown(d) => assert_eq!(d.button, expected),
            _ => panic!("a pointerdown event normalizes to PointerDown"),
        }
    }
}

#[test]
fn buttons_bitmask_is_rebuilt_bit_by_bit() {
    let mut input = pointer_input();
    // Only the five tested bits survive.
    input.buttons = 0xFFFF_FFFF;
    match normalize_pointer(&input, 0, 0) {
        UiEvent::PointerDown(d) => assert_eq!(d.buttons, 0x1F),
        _ => panic!("a pointerdown event normalizes to PointerDown"),
    }
    input.buttons = 0b10101;
    match normalize_pointer(&input, 0, 0) {
        UiEvent::PointerDown(d) => assert_eq!(d.buttons, 0b10101),
        _ => panic!("a pointerdown event normalizes to PointerDown"),
    }
}

#[test]
fn modifiers_combine_into_one_bitset() {
    let mut input = pointer_input();
    input.alt = true;
    input.shift = true;
    match normalize_pointer(&input, 0, 0) {
        UiEvent::PointerDown(d) => {
            assert_eq!(d.mods, Modifiers { alt: true, ctrl: false, shift: true, meta: false });
            assert_eq!(d.mods.bits(), 0b0101);
        },
        _ => panic!("a pointerdown event normalizes to PointerDown"),
    }
}

#[test]
fn wheel_deltas_are_sign_inverted() {
    match normalize_wheel(&wheel_input(), 0, 0) {
        UiEvent::Wheel(d) => assert_eq!(d.delta, WheelDelta::Pixels(-3, 7)),
        _ => panic!("a wheel event normalizes to Wheel"),
    }
}

#[test]
fn wheel_delta_mode_picks_units_with_pixel_fallback() {
    let mut input = wheel_input();
    input.delta_mode = 1;
    match normalize_wheel(&input, 0, 0) {
        UiEvent::Wheel(d) => assert_eq!(d.delta, WheelDelta::Lines(-3, 7)),
        _ => panic!("a wheel event normalizes to Wheel"),
    }
    input.delta_mode = 2;
    match normalize_wheel(&input, 0, 0) {
        UiEvent::Wheel(d) => assert_eq!(d.delta, WheelDelta::Pixels(-3, 7)),
        _ => panic!("a wheel event normalizes to Wheel"),
    }
}

#[test]
fn keydown_presses_and_other_types_release() {
    match normalize_key(&key_input()) {
        UiEvent::KeyDown(d) => {
            assert_eq!(d.state, KeyState::Pressed);
            assert_eq!(d.code, keyboard_types::Code::KeyA);
            assert!(d.text.is_none());
            assert!(!d.is_auto_repeating);
        },
        _ => panic!("a keydown event normalizes to KeyDown"),
    }
    let mut input = key_input();
    input.event_type = "keyup".to_owned();
    match normalize_key(&input) {
        UiEvent::KeyUp(d) => assert_eq!(d.state, KeyState::Released),
        _ => panic!("a keyup event normalizes to KeyUp"),
    }
}

#[test]
fn key_locations_map_with_standard_fallback() {
    let cases = [
        (0, KeyLocation::Standard),
        (1, KeyLocation::Left),
        (2, KeyLocation::Right),
        (3, KeyLocation::Numpad),
        (9, KeyLocation::Standard),
    ];
    for (loc, expected) in cases {
        let mut input = key_input();
        input.location = loc;
        match normalize_key(&input) {
            UiEvent::KeyDown(d) => assert_eq!(d.location, expected),
            _ => panic!("a keydown event normalizes to KeyDown"),
        }
    }
}

#[test]
fn unparseable_code_falls_back_to_unidentified() {
    let mut input = key_input();
    input.code = "NoSuchCode".to_owned();
    match normalize_key(&input) {
        UiEvent::KeyDown(d) => assert_eq!(d.code, keyboard_types::Code::Unidentified),
        _ => panic!("a keydown event normalizes to KeyDown"),
    }
}

#[test]
fn key_strings_parse_to_canonical_keys() {
    let mut input = key_input();
    input.key = "Enter".to_owned();
    match normalize_key(&input) {
        UiEvent::KeyDown(d) => {
            assert_eq!(d.key, keyboard_types::Key::Named(keyboard_types::NamedKey::Enter));
        },
        _ => panic!("a keydown event normalizes to KeyDown"),
    }
    input.key = "a".to_owned();
    match normalize_key(&input) {
        UiEvent::KeyDown(d) => {
            assert_eq!(d.key, keyboard_types::Key::Character("a".to_owned()));
        },
        _ => panic!("a keydown event normalizes to KeyDown"),
    }
}

#[test]
fn normalized_events_dispatch_under_their_kind() {
    assert_eq!(normalize_pointer(&pointer_input(), 0, 0).kind(), EventKind::PointerDown);
    assert_eq!(normalize_wheel(&wheel_input(), 0, 0).kind(), EventKind::Wheel);
    assert_eq!(normalize_key(&key_input()).kind(), EventKind::KeyDown);
}
