//! Normalization of host-native input events into the canonical UI event
//! model.
//!
//! Host coordinates arrive as integer device units; page and client
//! coordinates are translated by the content origin (the canvas offset),
//! screen coordinates pass through. The buttons bitmask is rebuilt bit by bit
//! from the host mask rather than passed through, to stay decoupled from the
//! host representation. Wheel deltas are sign-inverted relative to the host
//! convention. Key and code strings are parsed into the canonical
//! `keyboard_types` enumerations with an `Unidentified` fallback.

use vstd::prelude::*;
use core::str::FromStr;
use crate::events::EventKind;
use crate::text::str_eq;

verus! {

/// The identity of the pointing device.
#[derive(Clone, Copy, Debug, PartialEq, Eq, Structural)]
pub enum PointerId {
    Mouse,
    Pen,
    Finger(u64),
}

/// The button a pointer event reports.
#[derive(Clone, Copy, Debug, PartialEq, Eq, Structural)]
pub enum MouseButton {
    Main,
    Auxiliary,
    Secondary,
    Fourth,
    Fifth,
}

/// The modifier set: four independent booleans, combinable into one bitset.
#[derive(Clone, Copy, Debug, PartialEq, Eq, Structural)]
pub struct Modifiers {
    pub alt: bool,
    pub ctrl: bool,
    pub shift: bool,
    pub meta: bool,
}

impl Modifiers {
    /// The set as one bitset: alt 1, ctrl 2, shift 4, meta 8.
    pub open spec fn spec_bits(self) -> u8 {
        ((if self.alt {
            1int
        } else {
            0int
        }) + (if self.ctrl {
            2int
        } else {
            0int
        }) + (if self.shift {
            4int
        } else {
            0int
        }) + (if self.meta {
            8int
        } else {
            0int
        })) as u8
    }

    pub fn bits(self) -> (r: u8)
        ensures
            r == self.spec_bits(),
    {
        let mut r: u8 = 0;
        if self.alt {
            r += 1;
        }
        if self.ctrl {
            r += 2;
        }
        if self.shift {
            r += 4;
        }
        if self.meta {
            r += 8;
        }
        r
    }
}

/// Content-relative page/client coordinates and pass-through screen
/// coordinates, in integer device units.
#[derive(Clone, Copy, Debug, PartialEq, Eq, Structural)]
pub struct PointerCoords {
    pub page_x: i64,
    pub page_y: i64,
    pub client_x: i64,
    pub client_y: i64,
    pub screen_x: i64,
    pub screen_y: i64,
}

/// A wheel delta, in integer device units per axis.
#[derive(Clone, Copy, Debug, PartialEq, Eq, Structural)]
pub enum WheelDelta {
    Pixels(i64, i64),
    Lines(i64, i64),
}

#[derive(Clone, Copy, Debug, PartialEq, Eq, Structural)]
pub enum KeyState {
    Pressed,
    Released,
}

#[derive(Clone, Copy, Debug, PartialEq, Eq, Structural)]
pub enum KeyLocation {
    Standard,
    Left,
    Right,
    Numpad,
}

/// The payload of a pointer event.
#[derive(Clone, Copy, Debug, PartialEq, Eq, Structural)]
pub struct PointerEventData {
    pub id: PointerId,
    pub is_primary: bool,
    pub coords: PointerCoords,
    pub button: MouseButton,
    pub buttons: u8,
    pub mods: Modifiers,
}

/// The payload of a wheel event.
#[derive(Clone, Copy, Debug, PartialEq, Eq, Structural)]
pub struct WheelEventData {
    pub delta: WheelDelta,
    pub coords: PointerCoords,
    pub buttons: u8,
    pub mods: Modifiers,
}

#[verifier::external_type_specification]
#[verifier::external_body]
pub struct ExKey(keyboard_types::Key);

#[verifier::external_type_specification]
#[verifier::external_body]
pub struct ExCode(keyboard_types::Code);

/// The payload of a keyboard event. `key` and `code` are the canonical
/// `keyboard_types` enumerations, parsed from the host strings with an
/// `Unidentified` fallback.
#[derive(Debug)]
pub struct KeyEventData {
    pub key: keyboard_types::Key,
    pub code: keyboard_types::Code,
    pub modifiers: Modifiers,
    pub location: KeyLocation,
    pub is_auto_repeating: bool,
    pub is_composing: bool,
    pub state: KeyState,
    pub text: Option<String>,
}

/// A canonical UI event.
pub enum UiEvent {
    PointerDown(PointerEventData),
    PointerUp(PointerEventData),
    PointerMove(PointerEventData),
    Wheel(WheelEventData),
    KeyDown(KeyEventData),
    KeyUp(KeyEventData),
}

impl UiEvent {
    /// The event kind this event dispatches under.
    pub open spec fn spec_kind(&self) -> EventKind {
        match self {
            UiEvent::PointerDown(_) => EventKind::PointerDown,
            UiEvent::PointerUp(_) => EventKind::PointerUp,
            UiEvent::PointerMove(_) => EventKind::PointerMove,
            UiEvent::Wheel(_) => EventKind::Wheel,
            UiEvent::KeyDown(_) => EventKind::KeyDown,
            UiEvent::KeyUp(_) => EventKind::KeyUp,
        }
    }

    pub fn kind(&self) -> (k: EventKind)
        ensures
            k == self.spec_kind(),
    {
        match self {
            UiEvent::PointerDown(_) => EventKind::PointerDown,
            UiEvent::PointerUp(_) => EventKind::PointerUp,
            UiEvent::PointerMove(_) => EventKind::PointerMove,
            UiEvent::Wheel(_) => EventKind::Wheel,
            UiEvent::KeyDown(_) => EventKind::KeyDown,
            UiEvent::KeyUp(_) => EventKind::KeyUp,
        }
    }
}

/// A host-native pointer event, as plain values.
pub struct HostPointerInput {
    pub event_type: String,
    pub pointer_type: String,
    pub pointer_id: u64,
    pub is_primary: bool,
    pub button: i32,
    pub buttons: u32,
    pub page_x: i64,
    pub page_y: i64,
    pub client_x: i64,
    pub client_y: i64,
    pub screen_x: i64,
    pub screen_y: i64,
    pub alt: bool,
    pub ctrl: bool,
    pub shift: bool,
    pub meta: bool,
}

/// A host-native wheel event, as plain values.
pub struct HostWheelInput {
    pub delta_mode: u32,
    pub delta_x: i64,
    pub delta_y: i64,
    pub buttons: u32,
    pub page_x: i64,
    pub page_y: i64,
    pub client_x: i64,
    pub client_y: i64,
    pub screen_x: i64,
    pub screen_y: i64,
    pub alt: bool,
    pub ctrl: bool,
    pub shift: bool,
    pub meta: bool,
}

/// A host-native keyboard event, as plain values.
pub struct HostKeyInput {
    pub event_type: String,
    pub key: String,
    pub code: String,
    pub location: u32,
    pub repeat: bool,
    pub is_composing: bool,
    pub alt: bool,
    pub ctrl: bool,
    pub shift: bool,
    pub meta: bool,
}

/// Map the host pointer-type string: "mouse", "pen" and "touch" are
/// recognized; anything else falls back to a mouse, never an error.
pub open spec fn spec_pointer_id(pointer_type: Seq<char>, id: u64) -> PointerId {
    if pointer_type == "mouse"@ {
        PointerId::Mouse
    } else if pointer_type == "pen"@ {
        PointerId::Pen
    } else if pointer_type == "touch"@ {
        PointerId::Finger(id)
    } else {
        PointerId::Mouse
    }
}

/// Map the host button code 0 to 4; anything else falls back to the main
/// button.
pub open spec fn spec_button(code: i32) -> MouseButton {
    if code == 0 {
        MouseButton::Main
    } else if code == 1 {
        MouseButton::Auxiliary
    } else if code == 2 {
        MouseButton::Secondary
    } else if code == 3 {
        MouseButton::Fourth
    } else if code == 4 {
        MouseButton::Fifth
    } else {
        MouseButton::Main
    }
}

/// Rebuild the buttons bitmask bit by bit from the host mask, testing the
/// five button bits independently.
pub open spec fn spec_buttons_mask(host: u32) -> u8 {
    let b0: u8 = 0u8;
    let b1: u8 = if host & 0x01 != 0 {
        b0 | 0x01
    } else {
        b0
    };
    let b2: u8 = if host & 0x02 != 0 {
        b1 | 0x02
    } else {
        b1
    };
    let b3: u8 = if host & 0x04 != 0 {
        b2 | 0x04
    } else {
        b2
    };
    let b4: u8 = if host & 0x08 != 0 {
        b3 | 0x08
    } else {
        b3
    };
    if host & 0x10 != 0 {
        b4 | 0x10
    } else {
        b4
    }
}

pub fn buttons_mask(host: u32) -> (r: u8)
    ensures
        r == spec_buttons_mask(host),
{
    let mut b: u8 = 0;
    if host & 0x01 != 0 {
        b = b | 0x01;
    }
    if host & 0x02 != 0 {
        b = b | 0x02;
    }
    if host & 0x04 != 0 {
        b = b | 0x04;
    }
    if host & 0x08 != 0 {
        b = b | 0x08;
    }
    if host & 0x10 != 0 {
        b = b | 0x10;
    }
    b
}

/// Map the host key-location code; anything beyond 3 falls back to standard.
pub open spec fn spec_location(loc: u32) -> KeyLocation {
    if loc == 1 {
        KeyLocation::Left
    } else if loc == 2 {
        KeyLocation::Right
    } else if loc == 3 {
        KeyLocation::Numpad
    } else {
        KeyLocation::Standard
    }
}

/// The normalized payload of a host pointer event: page and client
/// coordinates translated by the content origin, screen coordinates passed
/// through, button and buttons and modifiers mapped.
pub open spec fn spec_pointer_data(
    host: HostPointerInput,
    canvas_x: i64,
    canvas_y: i64,
) -> PointerEventData {
    PointerEventData {
        id: spec_pointer_id(host.pointer_type@, host.pointer_id),
        is_primary: host.is_primary,
        coords: PointerCoords {
            page_x: (host.page_x - canvas_x) as i64,
            page_y: (host.page_y - canvas_y) as i64,
            client_x: (host.client_x - canvas_x) as i64,
            client_y: (host.client_y - canvas_y) as i64,
            screen_x: host.screen_x,
            screen_y: host.screen_y,
        },
        button: spec_button(host.button),
        buttons: spec_buttons_mask(host.buttons),
        mods: Modifiers { alt: host.alt, ctrl: host.ctrl, shift: host.shift, meta: host.meta },
    }
}

/// The event the host pointer event normalizes to: the variant follows the
/// event-type string, with move as the unconditional fallback.
pub open spec fn spec_pointer_event(
    host: HostPointerInput,
    canvas_x: i64,
    canvas_y: i64,
) -> UiEvent {
    let data = spec_pointer_data(host, canvas_x, canvas_y);
    if host.event_type@ == "pointerdown"@ {
        UiEvent::PointerDown(data)
    } else if host.event_type@ == "pointerup"@ {
        UiEvent::PointerUp(data)
    } else {
        UiEvent::PointerMove(data)
    }
}

/// Normalize a host pointer event against the content origin
/// (`canvas_x`, `canvas_y`).
pub fn normalize_pointer(host: &HostPointerInput, canvas_x: i64, canvas_y: i64) -> (r: UiEvent)
    requires
        -0x1_0000_0000 <= host.page_x <= 0x1_0000_0000,
        -0x1_0000_0000 <= host.page_y <= 0x1_0000_0000,
        -0x1_0000_0000 <= host.client_x <= 0x1_0000_0000,
        -0x1_0000_0000 <= host.client_y <= 0x1_0000_0000,
        -0x1_0000_0000 <= canvas_x <= 0x1_0000_0000,
        -0x1_0000_0000 <= canvas_y <= 0x1_0000_0000,
    ensures
        r == spec_pointer_event(*host, canvas_x, canvas_y),
{
    let id = if str_eq(host.pointer_type.as_str(), "mouse") {
        PointerId::Mouse
    } else if str_eq(host.pointer_type.as_str(), "pen") {
        PointerId::Pen
    } else if str_eq(host.pointer_type.as_str(), "touch") {
        PointerId::Finger(host.pointer_id)
    } else {
        PointerId::Mouse
    };
    let button = if host.button == 0 {
        MouseButton::Main
    } else if host.button == 1 {
        MouseButton::Auxiliary
    } else if host.button == 2 {
        MouseButton::Secondary
    } else if host.button == 3 {
        MouseButton::Fourth
    } else if host.button == 4 {
        MouseButton::Fifth
    } else {
        MouseButton::Main
    };
    let data = PointerEventData {
        id,
        is_primary: host.is_primary,
        coords: PointerCoords {
            page_x: host.page_x - canvas_x,
            page_y: host.page_y - canvas_y,
            client_x: host.client_x - canvas_x,
            client_y: host.client_y - canvas_y,
            screen_x: host.screen_x,
            screen_y: host.screen_y,
        },
        button,
        buttons: buttons_mask(host.buttons),
        mods: Modifiers { alt: host.alt, ctrl: host.ctrl, shift: host.shift, meta: host.meta },
    };
    if str_eq(host.event_type.as_str(), "pointerdown") {
        UiEvent::PointerDown(data)
    } else if str_eq(host.event_type.as_str(), "pointerup") {
        UiEvent::PointerUp(data)
    } else {
        UiEvent::PointerMove(data)
    }
}

/// The normalized payload of a host wheel event: the delta mode picks pixel
/// or line units (pixels as the fallback) and both axes are sign-inverted
/// relative to the host convention.
pub open spec fn spec_wheel_data(host: HostWheelInput, canvas_x: i64, canvas_y: i64) -> WheelEventData {
    let delta = if host.delta_mode == 1 {
        WheelDelta::Lines((-host.delta_x) as i64, (-host.delta_y) as i64)
    } else {
        WheelDelta::Pixels((-host.delta_x) as i64, (-host.delta_y) as i64)
    };
    WheelEventData {
        delta,
        coords: PointerCoords {
            page_x: (host.page_x - canvas_x) as i64,
            page_y: (host.page_y - canvas_y) as i64,
            client_x: (host.client_x - canvas_x) as i64,
            client_y: (host.client_y - canvas_y) as i64,
            screen_x: host.screen_x,
            screen_y: host.screen_y,
        },
        buttons: spec_buttons_mask(host.buttons),
        mods: Modifiers { alt: host.alt, ctrl: host.ctrl, shift: host.shift, meta: host.meta },
    }
}

/// Normalize a host wheel event against the content origin.
pub fn normalize_wheel(host: &HostWheelInput, canvas_x: i64, canvas_y: i64) -> (r: UiEvent)
    requires
        -0x1_0000_0000 <= host.page_x <= 0x1_0000_0000,
        -0x1_0000_0000 <= host.page_y <= 0x1_0000_0000,
        -0x1_0000_0000 <= host.client_x <= 0x1_0000_0000,
        -0x1_0000_0000 <= host.client_y <= 0x1_0000_0000,
        -0x1_0000_0000 <= canvas_x <= 0x1_0000_0000,
        -0x1_0000_0000 <= canvas_y <= 0x1_0000_0000,
        host.delta_x > i64::MIN,
        host.delta_y > i64::MIN,
    ensures
        r == UiEvent::Wheel(spec_wheel_data(*host, canvas_x, canvas_y)),
{
    let delta = if host.delta_mode == 1 {
        WheelDelta::Lines(-host.delta_x, -host.delta_y)
    } else {
        WheelDelta::Pixels(-host.delta_x, -host.delta_y)
    };
    UiEvent::Wheel(
        WheelEventData {
            delta,
            coords: PointerCoords {
                page_x: host.page_x - canvas_x,
                page_y: host.page_y - canvas_y,
                client_x: host.client_x - canvas_x,
                client_y: host.client_y - canvas_y,
                screen_x: host.screen_x,
                screen_y: host.screen_y,
            },
            buttons: buttons_mask(host.buttons),
            mods: Modifiers { alt: host.alt, ctrl: host.ctrl, shift: host.shift, meta: host.meta },
        },
    )
}

/// Relies on `keyboard_types::Code`'s `FromStr`: parses a W3C UI Events code
/// string into the canonical enumeration; the result depends on the string
/// alone.
#[verifier::external_body]
fn parse_code(s: &str) -> (r: Option<keyboard_types::Code>) {
    keyboard_types::Code::from_str(s).ok()
}

/// Relies on `keyboard_types::Key`'s `FromStr`: parses a key-attribute string
/// into a character key or a named key; the result depends on the string
/// alone.
#[verifier::external_body]
fn parse_key(s: &str) -> (r: Option<keyboard_types::Key>) {
    keyboard_types::Key::from_str(s).ok()
}

/// Relies on `keyboard_types::Code::Unidentified`: the enumeration's variant
/// for a code the host could not identify, used as the parse fallback.
#[verifier::external_body]
fn code_unidentified() -> (r: keyboard_types::Code) {
    keyboard_types::Code::Unidentified
}

/// Relies on `keyboard_types::NamedKey::Unidentified`: the named key for a
/// key the host could not identify, used as the parse fallback.
#[verifier::external_body]
fn key_unidentified() -> (r: keyboard_types::Key) {
    keyboard_types::Key::Named(keyboard_types::NamedKey::Unidentified)
}

/// All of a normalized key event that is stated over plain values: modifiers,
/// location, repeat and composing flags, the pressed/released state derived
/// from the event-type string, and the absent text. The `key` and `code`
/// fields hold the outside enumerations parsed from the host strings (with
/// the `Unidentified` fallback) and are not modeled further.
pub open spec fn key_data_matches(host: HostKeyInput, d: KeyEventData) -> bool {
    &&& d.modifiers == Modifiers { alt: host.alt, ctrl: host.ctrl, shift: host.shift, meta: host.meta }
    &&& d.location == spec_location(host.location)
    &&& d.is_auto_repeating == host.repeat
    &&& d.is_composing == host.is_composing
    &&& d.state == (if host.event_type@ == "keydown"@ {
        KeyState::Pressed
    } else {
        KeyState::Released
    })
    &&& d.text is None
}

/// Normalize a host keyboard event. The variant follows the event-type
/// string: "keydown" presses, anything else releases.
pub fn normalize_key(host: &HostKeyInput) -> (r: UiEvent)
    ensures
        host.event_type@ == "keydown"@ ==> (r matches UiEvent::KeyDown(d) && key_data_matches(
            *host,
            d,
        )),
        host.event_type@ != "keydown"@ ==> (r matches UiEvent::KeyUp(d) && key_data_matches(
            *host,
            d,
        )),
{
    let code = match parse_code(host.code.as_str()) {
        Some(c) => c,
        None => code_unidentified(),
    };
    let key = match parse_key(host.key.as_str()) {
        Some(k) => k,
        None => key_unidentified(),
    };
    let location = if host.location == 1 {
        KeyLocation::Left
    } else if host.location == 2 {
        KeyLocation::Right
    } else if host.location == 3 {
        KeyLocation::Numpad
    } else {
        KeyLocation::Standard
    };
    let is_keydown = str_eq(host.event_type.as_str(), "keydown");
    let data = KeyEventData {
        key,
        code,
        modifiers: Modifiers { alt: host.alt, ctrl: host.ctrl, shift: host.shift, meta: host.meta },
        location,
        is_auto_repeating: host.repeat,
        is_composing: host.is_composing,
        state: if is_keydown {
            KeyState::Pressed
        } else {
            KeyState::Released
        },
        text: None,
    };
    if is_keydown {
        UiEvent::KeyDown(data)
    } else {
        UiEvent::KeyUp(data)
    }
}

} // verus!
