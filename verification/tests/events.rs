use key_overlay::combo::MouseButton;
use key_overlay::events::{
    mac_event, mac_event_mask, windows_key_event, windows_mouse_event, ModifierFlags,
    RawInputEvent, FLAG_ALT, FLAG_CTRL, FLAG_META, FLAG_SHIFT,
};

fn key_down(e: Option<RawInputEvent>) -> Option<String> {
    match e {
        Some(RawInputEvent::KeyDown(name)) => Some(name),
        _ => None,
    }
}

fn key_up(e: Option<RawInputEvent>) -> Option<String> {
    match e {
        Some(RawInputEvent::KeyUp(name)) => Some(name),
        _ => None,
    }
}

fn button(e: Option<RawInputEvent>) -> Option<MouseButton> {
    match e {
        Some(RawInputEvent::MouseButtonDown(b)) => Some(b),
        _ => None,
    }
}

fn flags(e: Option<RawInputEvent>) -> Option<ModifierFlags> {
    match e {
        Some(RawInputEvent::ModifierFlagsChanged(f)) => Some(f),
        _ => None,
    }
}

#[test]
fn modifier_flags_are_read_bit_by_bit() {
    let none = ModifierFlags { meta: false, shift: false, ctrl: false, alt: false };
    assert_eq!(ModifierFlags::from_native(0), none);
    assert_eq!(ModifierFlags::from_native(0x0010_0000), ModifierFlags { meta: true, ..none });
    assert_eq!(ModifierFlags::from_native(0x0002_0000), ModifierFlags { shift: true, ..none });
    assert_eq!(ModifierFlags::from_native(0x0004_0000), ModifierFlags { ctrl: true, ..none });
    assert_eq!(ModifierFlags::from_native(0x0008_0000), ModifierFlags { alt: true, ..none });
    assert_eq!(
        ModifierFlags::from_native(0x001E_0000),
        ModifierFlags { meta: true, shift: true, ctrl: true, alt: true }
    );
    assert_eq!(ModifierFlags::from_native(!0x001E_0000u64), none);
    assert_eq!(ModifierFlags::from_native(0x0001_0000 | 0x0020_0000 | 0x100), none);
    assert_eq!(
        ModifierFlags::from_native(u64::MAX),
        ModifierFlags { meta: true, shift: true, ctrl: true, alt: true }
    );
}

#[test]
fn flag_bits() {
    assert_eq!(FLAG_META, 1 << 20);
    assert_eq!(FLAG_ALT, 1 << 19);
    assert_eq!(FLAG_CTRL, 1 << 18);
    assert_eq!(FLAG_SHIFT, 1 << 17);
}

#[test]
fn mac_key_events() {
    assert_eq!(key_down(mac_event(10, 0, 0)), Some("A".to_string()));
    assert_eq!(key_up(mac_event(11, 0, 0)), Some("A".to_string()));
    assert_eq!(key_down(mac_event(10, 10, 0x0002_0000)), Some("#10".to_string()));
    assert_eq!(key_up(mac_event(11, 56, 0)), Some("Shift".to_string()));
}

#[test]
fn mac_flags_event() {
    assert_eq!(
        flags(mac_event(12, 56, 0x0002_0000 | 0x0008_0000)),
        Some(ModifierFlags { meta: false, shift: true, ctrl: false, alt: true })
    );
}

#[test]
fn mac_mouse_events() {
    assert_eq!(button(mac_event(1, 0, 0)), Some(MouseButton::Left));
    assert_eq!(button(mac_event(3, 0, 0)), Some(MouseButton::Right));
}

#[test]
fn other_mac_events_are_dropped() {
    for t in [0u32, 2, 4, 5, 6, 7, 9, 13, 14, 22, 25, 64, 1 << 10, u32::MAX] {
        assert!(mac_event(t, 0, 0).is_none(), "{t}");
    }
}

#[test]
fn mac_mask_has_the_bits_of_the_decoded_events() {
    let mask = mac_event_mask();
    assert_eq!(mask, (1 << 1) | (1 << 3) | (1 << 10) | (1 << 11) | (1 << 12));
    for t in 0..64u32 {
        assert_eq!(mask & (1u64 << t) != 0, mac_event(t, 0, 0).is_some(), "{t}");
    }
}

#[test]
fn windows_key_events() {
    assert_eq!(key_down(windows_key_event(0x100, 0x41)), Some("A".to_string()));
    assert_eq!(key_down(windows_key_event(0x104, 0xA4)), Some("Alt".to_string()));
    assert_eq!(key_up(windows_key_event(0x101, 0x41)), Some("A".to_string()));
    assert_eq!(key_up(windows_key_event(0x105, 0x07)), Some("#07".to_string()));
}

#[test]
fn other_windows_keyboard_messages_are_dropped() {
    for m in [0usize, 0x102, 0x103, 0x106, 0x201, 0x204, usize::MAX] {
        assert!(windows_key_event(m, 0x41).is_none(), "{m:#x}");
    }
}

#[test]
fn windows_mouse_events() {
    assert_eq!(button(windows_mouse_event(0x201)), Some(MouseButton::Left));
    assert_eq!(button(windows_mouse_event(0x204)), Some(MouseButton::Right));
    for m in [0usize, 0x200, 0x202, 0x203, 0x205, 0x207, 0x100] {
        assert!(windows_mouse_event(m).is_none(), "{m:#x}");
    }
}
