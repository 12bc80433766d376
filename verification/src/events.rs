//! The canonical event-kind enumeration, its stable small-integer
//! discriminants, and the fixed bidirectional mapping between kinds and their
//! external string names.

use vstd::prelude::*;
use crate::text::str_eq;

verus! {

/// The fixed closed set of recognized DOM event kinds.
#[derive(Clone, Copy, Debug, PartialEq, Eq, Structural)]
pub enum EventKind {
    PointerMove,
    PointerDown,
    PointerUp,
    PointerEnter,
    PointerLeave,
    PointerOver,
    PointerOut,
    MouseMove,
    MouseDown,
    MouseUp,
    MouseEnter,
    MouseLeave,
    MouseOver,
    MouseOut,
    Scroll,
    Wheel,
    Click,
    ContextMenu,
    DoubleClick,
    KeyPress,
    KeyDown,
    KeyUp,
    Input,
    Ime,
    Focus,
    Blur,
    FocusIn,
    FocusOut,
}

impl EventKind {
    /// The stable small-integer discriminant used as a registry key component.
    pub open spec fn spec_discriminant(self) -> u8 {
        match self {
            EventKind::PointerMove => 0,
            EventKind::PointerDown => 1,
            EventKind::PointerUp => 2,
            EventKind::PointerEnter => 3,
            EventKind::PointerLeave => 4,
            EventKind::PointerOver => 5,
            EventKind::PointerOut => 6,
            EventKind::MouseMove => 7,
            EventKind::MouseDown => 8,
            EventKind::MouseUp => 9,
            EventKind::MouseEnter => 10,
            EventKind::MouseLeave => 11,
            EventKind::MouseOver => 12,
            EventKind::MouseOut => 13,
            EventKind::Scroll => 14,
            EventKind::Wheel => 15,
            EventKind::Click => 16,
            EventKind::ContextMenu => 17,
            EventKind::DoubleClick => 18,
            EventKind::KeyPress => 19,
            EventKind::KeyDown => 20,
            EventKind::KeyUp => 21,
            EventKind::Input => 22,
            EventKind::Ime => 23,
            EventKind::Focus => 24,
            EventKind::Blur => 25,
            EventKind::FocusIn => 26,
            EventKind::FocusOut => 27,
        }
    }

    pub fn discriminant(self) -> (d: u8)
        ensures
            d == self.spec_discriminant(),
    {
        match self {
            EventKind::PointerMove => 0,
            EventKind::PointerDown => 1,
            EventKind::PointerUp => 2,
            EventKind::PointerEnter => 3,
            EventKind::PointerLeave => 4,
            EventKind::PointerOver => 5,
            EventKind::PointerOut => 6,
            EventKind::MouseMove => 7,
            EventKind::MouseDown => 8,
            EventKind::MouseUp => 9,
            EventKind::MouseEnter => 10,
            EventKind::MouseLeave => 11,
            EventKind::MouseOver => 12,
            EventKind::MouseOut => 13,
            EventKind::Scroll => 14,
            EventKind::Wheel => 15,
            EventKind::Click => 16,
            EventKind::ContextMenu => 17,
            EventKind::DoubleClick => 18,
            EventKind::KeyPress => 19,
            EventKind::KeyDown => 20,
            EventKind::KeyUp => 21,
            EventKind::Input => 22,
            EventKind::Ime => 23,
            EventKind::Focus => 24,
            EventKind::Blur => 25,
            EventKind::FocusIn => 26,
            EventKind::FocusOut => 27,
        }
    }
}

/// Every discriminant is below 28, so it fits the low bits of a registry key.
pub proof fn lemma_discriminant_bound(k: EventKind)
    ensures
        k.spec_discriminant() < 28,
{
}

/// Distinct kinds have distinct discriminants.
pub proof fn lemma_discriminant_injective(a: EventKind, b: EventKind)
    ensures
        a.spec_discriminant() == b.spec_discriminant() ==> a == b,
{
}

/// The external string name of each event kind.
pub open spec fn spec_kind_name(k: EventKind) -> Seq<char> {
    match k {
        EventKind::PointerMove => "pointermove"@,
        EventKind::PointerDown => "pointerdown"@,
        EventKind::PointerUp => "pointerup"@,
        EventKind::PointerEnter => "pointerenter"@,
        EventKind::PointerLeave => "pointerleave"@,
        EventKind::PointerOver => "pointerover"@,
        EventKind::PointerOut => "pointerout"@,
        EventKind::MouseMove => "mousemove"@,
        EventKind::MouseDown => "mousedown"@,
        EventKind::MouseUp => "mouseup"@,
        EventKind::MouseEnter => "mouseenter"@,
        EventKind::MouseLeave => "mouseleave"@,
        EventKind::MouseOver => "mouseover"@,
        EventKind::MouseOut => "mouseout"@,
        EventKind::Scroll => "scroll"@,
        EventKind::Wheel => "wheel"@,
        EventKind::Click => "click"@,
        EventKind::ContextMenu => "contextmenu"@,
        EventKind::DoubleClick => "dblclick"@,
        EventKind::KeyPress => "keypress"@,
        EventKind::KeyDown => "keydown"@,
        EventKind::KeyUp => "keyup"@,
        EventKind::Input => "input"@,
        EventKind::Ime => "composition"@,
        EventKind::Focus => "focus"@,
        EventKind::Blur => "blur"@,
        EventKind::FocusIn => "focusin"@,
        EventKind::FocusOut => "focusout"@,
    }
}

/// The kind a string names, if it is one of the fixed recognized names.
pub open spec fn spec_kind_of_name(s: Seq<char>) -> Option<EventKind> {
    if s == "pointermove"@ {
        Some(EventKind::PointerMove)
    } else if s == "pointerdown"@ {
        Some(EventKind::PointerDown)
    } else if s == "pointerup"@ {
        Some(EventKind::PointerUp)
    } else if s == "pointerenter"@ {
        Some(EventKind::PointerEnter)
    } else if s == "pointerleave"@ {
        Some(EventKind::PointerLeave)
    } else if s == "pointerover"@ {
        Some(EventKind::PointerOver)
    } else if s == "pointerout"@ {
        Some(EventKind::PointerOut)
    } else if s == "mousemove"@ {
        Some(EventKind::MouseMove)
    } else if s == "mousedown"@ {
        Some(EventKind::MouseDown)
    } else if s == "mouseup"@ {
        Some(EventKind::MouseUp)
    } else if s == "mouseenter"@ {
        Some(EventKind::MouseEnter)
    } else if s == "mouseleave"@ {
        Some(EventKind::MouseLeave)
    } else if s == "mouseover"@ {
        Some(EventKind::MouseOver)
    } else if s == "mouseout"@ {
        Some(EventKind::MouseOut)
    } else if s == "scroll"@ {
        Some(EventKind::Scroll)
    } else if s == "wheel"@ {
        Some(EventKind::Wheel)
    } else if s == "click"@ {
        Some(EventKind::Click)
    } else if s == "contextmenu"@ {
        Some(EventKind::ContextMenu)
    } else if s == "dblclick"@ {
        Some(EventKind::DoubleClick)
    } else if s == "keypress"@ {
        Some(EventKind::KeyPress)
    } else if s == "keydown"@ {
        Some(EventKind::KeyDown)
    } else if s == "keyup"@ {
        Some(EventKind::KeyUp)
    } else if s == "input"@ {
        Some(EventKind::Input)
    } else if s == "composition"@ {
        Some(EventKind::Ime)
    } else if s == "focus"@ {
        Some(EventKind::Focus)
    } else if s == "blur"@ {
        Some(EventKind::Blur)
    } else if s == "focusin"@ {
        Some(EventKind::FocusIn)
    } else if s == "focusout"@ {
        Some(EventKind::FocusOut)
    } else {
        None
    }
}

/// Parse an event-kind name; `None` for anything outside the recognized set.
pub fn str_to_kind(s: &str) -> (r: Option<EventKind>)
    ensures
        r == spec_kind_of_name(s@),
{
    if str_eq(s, "pointermove") {
        Some(EventKind::PointerMove)
    } else if str_eq(s, "pointerdown") {
        Some(EventKind::PointerDown)
    } else if str_eq(s, "pointerup") {
        Some(EventKind::PointerUp)
    } else if str_eq(s, "pointerenter") {
        Some(EventKind::PointerEnter)
    } else if str_eq(s, "pointerleave") {
        Some(EventKind::PointerLeave)
    } else if str_eq(s, "pointerover") {
        Some(EventKind::PointerOver)
    } else if str_eq(s, "pointerout") {
        Some(EventKind::PointerOut)
    } else if str_eq(s, "mousemove") {
        Some(EventKind::MouseMove)
    } else if str_eq(s, "mousedown") {
        Some(EventKind::MouseDown)
    } else if str_eq(s, "mouseup") {
        Some(EventKind::MouseUp)
    } else if str_eq(s, "mouseenter") {
        Some(EventKind::MouseEnter)
    } else if str_eq(s, "mouseleave") {
        Some(EventKind::MouseLeave)
    } else if str_eq(s, "mouseover") {
        Some(EventKind::MouseOver)
    } else if str_eq(s, "mouseout") {
        Some(EventKind::MouseOut)
    } else if str_eq(s, "scroll") {
        Some(EventKind::Scroll)
    } else if str_eq(s, "wheel") {
        Some(EventKind::Wheel)
    } else if str_eq(s, "click") {
        Some(EventKind::Click)
    } else if str_eq(s, "contextmenu") {
        Some(EventKind::ContextMenu)
    } else if str_eq(s, "dblclick") {
        Some(EventKind::DoubleClick)
    } else if str_eq(s, "keypress") {
        Some(EventKind::KeyPress)
    } else if str_eq(s, "keydown") {
        Some(EventKind::KeyDown)
    } else if str_eq(s, "keyup") {
        Some(EventKind::KeyUp)
    } else if str_eq(s, "input") {
        Some(EventKind::Input)
    } else if str_eq(s, "composition") {
        Some(EventKind::Ime)
    } else if str_eq(s, "focus") {
        Some(EventKind::Focus)
    } else if str_eq(s, "blur") {
        Some(EventKind::Blur)
    } else if str_eq(s, "focusin") {
        Some(EventKind::FocusIn)
    } else if str_eq(s, "focusout") {
        Some(EventKind::FocusOut)
    } else {
        None
    }
}

/// The external string name of a kind.
pub fn kind_to_str(k: EventKind) -> (r: &'static str)
    ensures
        r@ == spec_kind_name(k),
{
    match k {
        EventKind::PointerMove => "pointermove",
        EventKind::PointerDown => "pointerdown",
        EventKind::PointerUp => "pointerup",
        EventKind::PointerEnter => "pointerenter",
        EventKind::PointerLeave => "pointerleave",
        EventKind::PointerOver => "pointerover",
        EventKind::PointerOut => "pointerout",
        EventKind::MouseMove => "mousemove",
        EventKind::MouseDown => "mousedown",
        EventKind::MouseUp => "mouseup",
        EventKind::MouseEnter => "mouseenter",
        EventKind::MouseLeave => "mouseleave",
        EventKind::MouseOver => "mouseover",
        EventKind::MouseOut => "mouseout",
        EventKind::Scroll => "scroll",
        EventKind::Wheel => "wheel",
        EventKind::Click => "click",
        EventKind::ContextMenu => "contextmenu",
        EventKind::DoubleClick => "dblclick",
        EventKind::KeyPress => "keypress",
        EventKind::KeyDown => "keydown",
        EventKind::KeyUp => "keyup",
        EventKind::Input => "input",
        EventKind::Ime => "composition",
        EventKind::Focus => "focus",
        EventKind::Blur => "blur",
        EventKind::FocusIn => "focusin",
        EventKind::FocusOut => "focusout",
    }
}

/// The kind/name mapping is bidirectional: the name of a kind parses back to
/// that kind.
pub proof fn lemma_kind_name_round_trip(k: EventKind)
    ensures
        spec_kind_of_name(spec_kind_name(k)) == Some(k),
{
    broadcast use vstd::string::group_string_axioms;

    reveal_strlit("pointermove");
    reveal_strlit("pointerdown");
    reveal_strlit("pointerup");
    reveal_strlit("pointerenter");
    reveal_strlit("pointerleave");
    reveal_strlit("pointerover");
    reveal_strlit("pointerout");
    reveal_strlit("mousemove");
    reveal_strlit("mousedown");
    reveal_strlit("mouseup");
    reveal_strlit("mouseenter");
    reveal_strlit("mouseleave");
    reveal_strlit("mouseover");
    reveal_strlit("mouseout");
    reveal_strlit("scroll");
    reveal_strlit("wheel");
    reveal_strlit("click");
    reveal_strlit("contextmenu");
    reveal_strlit("dblclick");
    reveal_strlit("keypress");
    reveal_strlit("keydown");
    reveal_strlit("keyup");
    reveal_strlit("input");
    reveal_strlit("composition");
    reveal_strlit("focus");
    reveal_strlit("blur");
    reveal_strlit("focusin");
    reveal_strlit("focusout");
    // Lengths separate most pairs of names.
    assert("pointermove"@.len() == 11);
    assert("pointerdown"@.len() == 11);
    assert("pointerup"@.len() == 9);
    assert("pointerenter"@.len() == 12);
    assert("pointerleave"@.len() == 12);
    assert("pointerover"@.len() == 11);
    assert("pointerout"@.len() == 10);
    assert("mousemove"@.len() == 9);
    assert("mousedown"@.len() == 9);
    assert("mouseup"@.len() == 7);
    assert("mouseenter"@.len() == 10);
    assert("mouseleave"@.len() == 10);
    assert("mouseover"@.len() == 9);
    assert("mouseout"@.len() == 8);
    assert("scroll"@.len() == 6);
    assert("wheel"@.len() == 5);
    assert("click"@.len() == 5);
    assert("contextmenu"@.len() == 11);
    assert("dblclick"@.len() == 8);
    assert("keypress"@.len() == 8);
    assert("keydown"@.len() == 7);
    assert("keyup"@.len() == 5);
    assert("input"@.len() == 5);
    assert("composition"@.len() == 11);
    assert("focus"@.len() == 5);
    assert("blur"@.len() == 4);
    assert("focusin"@.len() == 7);
    assert("focusout"@.len() == 8);
    // Names of equal length differ at some character position.
    assert("wheel"@[0] != "click"@[0]);
    assert("wheel"@[0] != "keyup"@[0]);
    assert("wheel"@[0] != "input"@[0]);
    assert("wheel"@[0] != "focus"@[0]);
    assert("click"@[0] != "keyup"@[0]);
    assert("click"@[0] != "input"@[0]);
    assert("click"@[0] != "focus"@[0]);
    assert("keyup"@[0] != "input"@[0]);
    assert("keyup"@[0] != "focus"@[0]);
    assert("input"@[0] != "focus"@[0]);
    assert("mouseup"@[0] != "keydown"@[0]);
    assert("mouseup"@[0] != "focusin"@[0]);
    assert("keydown"@[0] != "focusin"@[0]);
    assert("mouseout"@[0] != "dblclick"@[0]);
    assert("mouseout"@[0] != "keypress"@[0]);
    assert("mouseout"@[0] != "focusout"@[0]);
    assert("dblclick"@[0] != "keypress"@[0]);
    assert("dblclick"@[0] != "focusout"@[0]);
    assert("keypress"@[0] != "focusout"@[0]);
    assert("pointerup"@[0] != "mousemove"@[0]);
    assert("pointerup"@[0] != "mousedown"@[0]);
    assert("pointerup"@[0] != "mouseover"@[0]);
    assert("mousemove"@[5] != "mousedown"@[5]);
    assert("mousemove"@[5] != "mouseover"@[5]);
    assert("mousedown"@[5] != "mouseover"@[5]);
    assert("pointerout"@[0] != "mouseenter"@[0]);
    assert("pointerout"@[0] != "mouseleave"@[0]);
    assert("mouseenter"@[5] != "mouseleave"@[5]);
    assert("pointermove"@[0] != "contextmenu"@[0]);
    assert("pointermove"@[0] != "composition"@[0]);
    assert("pointerdown"@[0] != "contextmenu"@[0]);
    assert("pointerdown"@[0] != "composition"@[0]);
    assert("pointerover"@[0] != "contextmenu"@[0]);
    assert("pointerover"@[0] != "composition"@[0]);
    assert("pointermove"@[7] != "pointerdown"@[7]);
    assert("pointermove"@[7] != "pointerover"@[7]);
    assert("pointerdown"@[7] != "pointerover"@[7]);
    assert("contextmenu"@[2] != "composition"@[2]);
    assert("pointerenter"@[7] != "pointerleave"@[7]);
}

/// A name parses to a kind only if it is exactly that kind's name.
pub proof fn lemma_kind_name_unique(s: Seq<char>, k: EventKind)
    ensures
        spec_kind_of_name(s) == Some(k) ==> s == spec_kind_name(k),
{
}

} // verus!
