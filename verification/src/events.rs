//! The uniform input events, and their decoding from what the operating system's hooks
//! deliver.

use vstd::prelude::*;
use crate::combo::MouseButton;
use crate::keys::{keycode_to_name, mac_key_name, vkey_to_name, windows_key_name};

verus! {

/// The bit of the macOS modifier flags that is set while Command is down.
pub const FLAG_META: u64 = 0x0010_0000;

/// The bit of the macOS modifier flags that is set while Shift is down.
pub const FLAG_SHIFT: u64 = 0x0002_0000;

/// The bit of the macOS modifier flags that is set while Control is down.
pub const FLAG_CTRL: u64 = 0x0004_0000;

/// The bit of the macOS modifier flags that is set while Option is down.
pub const FLAG_ALT: u64 = 0x0008_0000;

/// Which of the four modifiers Meta, Shift, Ctrl and Alt are down.
#[derive(Clone, Copy, Debug, PartialEq, Eq, Structural)]
pub struct ModifierFlags {
    pub meta: bool,
    pub shift: bool,
    pub ctrl: bool,
    pub alt: bool,
}

/// The modifiers that a macOS flags word reports as down.
pub open spec fn flags_of_native(flags: u64) -> ModifierFlags {
    ModifierFlags {
        meta: flags & FLAG_META != 0,
        shift: flags & FLAG_SHIFT != 0,
        ctrl: flags & FLAG_CTRL != 0,
        alt: flags & FLAG_ALT != 0,
    }
}

impl ModifierFlags {
    /// Reads the four modifiers out of a macOS flags word.
    pub fn from_native(flags: u64) -> (decoded: ModifierFlags)
        ensures
            decoded == flags_of_native(flags),
    {
        ModifierFlags {
            meta: flags & FLAG_META != 0,
            shift: flags & FLAG_SHIFT != 0,
            ctrl: flags & FLAG_CTRL != 0,
            alt: flags & FLAG_ALT != 0,
        }
    }
}

/// An input event in the form that the tracker consumes.
#[derive(Debug)]
pub enum RawInputEvent {
    /// The key with this name went down.
    KeyDown(String),
    /// The key with this name went up.
    KeyUp(String),
    /// The modifier flags changed to these.
    ModifierFlagsChanged(ModifierFlags),
    /// This mouse button went down.
    MouseButtonDown(MouseButton),
}

/// The mathematical value of a [`RawInputEvent`].
pub enum EventView {
    KeyDown(Seq<char>),
    KeyUp(Seq<char>),
    ModifierFlagsChanged(ModifierFlags),
    MouseButtonDown(MouseButton),
}

impl View for RawInputEvent {
    type V = EventView;

    open spec fn view(&self) -> EventView {
        match self {
            RawInputEvent::KeyDown(name) => EventView::KeyDown(name@),
            RawInputEvent::KeyUp(name) => EventView::KeyUp(name@),
            RawInputEvent::ModifierFlagsChanged(flags) => EventView::ModifierFlagsChanged(*flags),
            RawInputEvent::MouseButtonDown(button) => EventView::MouseButtonDown(*button),
        }
    }
}

/// The value of an optional event.
pub open spec fn event_of(event: Option<RawInputEvent>) -> Option<EventView> {
    match event {
        Some(e) => Some(e@),
        None => None,
    }
}

/// The macOS event type of a left mouse button going down.
pub const MAC_LEFT_MOUSE_DOWN: u32 = 1;

/// The macOS event type of a right mouse button going down.
pub const MAC_RIGHT_MOUSE_DOWN: u32 = 3;

/// The macOS event type of a key going down.
pub const MAC_KEY_DOWN: u32 = 10;

/// The macOS event type of a key going up.
pub const MAC_KEY_UP: u32 = 11;

/// The macOS event type of a change of the modifier flags.
pub const MAC_FLAGS_CHANGED: u32 = 12;

/// The event that a macOS tap callback stands for, given the event's type, its key code
/// field and its flags word; `None` for the types that the tracker has no use for.
pub open spec fn mac_event_of(event_type: u32, keycode: u16, flags: u64) -> Option<EventView> {
    if event_type == MAC_FLAGS_CHANGED {
        Some(EventView::ModifierFlagsChanged(flags_of_native(flags)))
    } else if event_type == MAC_KEY_DOWN {
        Some(EventView::KeyDown(mac_key_name(keycode)))
    } else if event_type == MAC_KEY_UP {
        Some(EventView::KeyUp(mac_key_name(keycode)))
    } else if event_type == MAC_LEFT_MOUSE_DOWN {
        Some(EventView::MouseButtonDown(MouseButton::Left))
    } else if event_type == MAC_RIGHT_MOUSE_DOWN {
        Some(EventView::MouseButtonDown(MouseButton::Right))
    } else {
        None
    }
}

/// Decodes what a macOS tap callback received.
pub fn mac_event(event_type: u32, keycode: u16, flags: u64) -> (event: Option<RawInputEvent>)
    ensures
        event_of(event) == mac_event_of(event_type, keycode, flags),
{
    if event_type == MAC_FLAGS_CHANGED {
        Some(RawInputEvent::ModifierFlagsChanged(ModifierFlags::from_native(flags)))
    } else if event_type == MAC_KEY_DOWN {
        Some(RawInputEvent::KeyDown(keycode_to_name(keycode)))
    } else if event_type == MAC_KEY_UP {
        Some(RawInputEvent::KeyUp(keycode_to_name(keycode)))
    } else if event_type == MAC_LEFT_MOUSE_DOWN {
        Some(RawInputEvent::MouseButtonDown(MouseButton::Left))
    } else if event_type == MAC_RIGHT_MOUSE_DOWN {
        Some(RawInputEvent::MouseButtonDown(MouseButton::Right))
    } else {
        None
    }
}

/// Whether a macOS tap has to deliver events of type `event_type`.
pub open spec fn is_tapped(event_type: u32) -> bool {
    event_type == MAC_LEFT_MOUSE_DOWN || event_type == MAC_RIGHT_MOUSE_DOWN || event_type
        == MAC_KEY_DOWN || event_type == MAC_KEY_UP || event_type == MAC_FLAGS_CHANGED
}

/// The mask of event types with which the macOS tap is created: bit `t` is set exactly
/// for the event types `t` that decode to an event.
pub fn mac_event_mask() -> (mask: u64)
    ensures
        forall|t: u32| t < 64 ==> ((mask >> (t as u64)) & 1 == 1 <==> is_tapped(t)),
        forall|t: u32, keycode: u16, flags: u64|
            is_tapped(t) <==> (#[trigger] mac_event_of(t, keycode, flags)) is Some,
{
    let mask: u64 = (1 << 1) | (1 << 3) | (1 << 10) | (1 << 11) | (1 << 12);
    assert(mask == 0x1C0A) by (bit_vector)
        requires
            mask == (1u64 << 1) | (1u64 << 3) | (1u64 << 10) | (1u64 << 11) | (1u64 << 12),
    ;
    assert forall|t: u32| t < 64 implies ((mask >> (t as u64)) & 1 == 1 <==> is_tapped(t)) by {
        let w = t as u64;
        assert(w < 64 ==> ((0x1C0Au64 >> w) & 1 == 1 <==> (w == 1 || w == 3 || w == 10 || w == 11
            || w == 12))) by (bit_vector);
    }
    mask
}

/// The Windows message of a key going down.
pub const WM_KEYDOWN: usize = 0x100;

/// The Windows message of a key going up.
pub const WM_KEYUP: usize = 0x101;

/// The Windows message of a key going down while Alt is held.
pub const WM_SYSKEYDOWN: usize = 0x104;

/// The Windows message of a key going up while Alt is held.
pub const WM_SYSKEYUP: usize = 0x105;

/// The Windows message of the left mouse button going down.
pub const WM_LBUTTONDOWN: usize = 0x201;

/// The Windows message of the right mouse button going down.
pub const WM_RBUTTONDOWN: usize = 0x204;

/// The event that a Windows keyboard hook call stands for, given the message and the
/// virtual-key code; `None` for other messages.
pub open spec fn windows_key_event_of(message: usize, vk: u32) -> Option<EventView> {
    if message == WM_KEYUP || message == WM_SYSKEYUP {
        Some(EventView::KeyUp(windows_key_name(vk)))
    } else if message == WM_KEYDOWN || message == WM_SYSKEYDOWN {
        Some(EventView::KeyDown(windows_key_name(vk)))
    } else {
        None
    }
}

/// Decodes what a Windows keyboard hook received.
pub fn windows_key_event(message: usize, vk: u32) -> (event: Option<RawInputEvent>)
    ensures
        event_of(event) == windows_key_event_of(message, vk),
{
    if message == WM_KEYUP || message == WM_SYSKEYUP {
        Some(RawInputEvent::KeyUp(vkey_to_name(vk)))
    } else if message == WM_KEYDOWN || message == WM_SYSKEYDOWN {
        Some(RawInputEvent::KeyDown(vkey_to_name(vk)))
    } else {
        None
    }
}

/// The event that a Windows mouse hook call stands for; `None` for other messages.
pub open spec fn windows_mouse_event_of(message: usize) -> Option<EventView> {
    if message == WM_LBUTTONDOWN {
        Some(EventView::MouseButtonDown(MouseButton::Left))
    } else if message == WM_RBUTTONDOWN {
        Some(EventView::MouseButtonDown(MouseButton::Right))
    } else {
        None
    }
}

/// Decodes what a Windows mouse hook received.
pub fn windows_mouse_event(message: usize) -> (event: Option<RawInputEvent>)
    ensures
        event_of(event) == windows_mouse_event_of(message),
{
    if message == WM_LBUTTONDOWN {
        Some(RawInputEvent::MouseButtonDown(MouseButton::Left))
    } else if message == WM_RBUTTONDOWN {
        Some(RawInputEvent::MouseButtonDown(MouseButton::Right))
    } else {
        None
    }
}

} // verus!
