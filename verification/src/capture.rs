//! One step of capture: an input event updates the held keys and yields the combos to show.

use vstd::prelude::*;
use crate::combo::{click_combo, key_combo, synthesize_click, synthesize_key};
use crate::text::text_of;
use crate::events::{EventView, ModifierFlags, RawInputEvent};
use crate::held::{
    is_idle,
    is_modifier_repeat,
    keys_after_flags,
    newly_pressed,
    HeldKeysState,
    HeldView,
    IDLE_THRESHOLD_MS,
};
use crate::keys::is_modifier;
use crate::settings::{ComboSettings, SettingsView};

verus! {

/// The characters of each string of a list.
pub open spec fn texts(shown: Seq<String>) -> Seq<Seq<char>> {
    shown.map_values(|s: String| s@)
}

/// A combo as a list: one text, or none.
pub open spec fn shown_if(combo: Option<Seq<char>>) -> Seq<Seq<char>> {
    match combo {
        Some(text) => seq![text],
        None => Seq::empty(),
    }
}

/// The held keys and the time of the last event after `event` arrived at `now`.
pub open spec fn state_after(state: HeldView, event: EventView, now: u64) -> HeldView {
    HeldView {
        keys: match event {
            EventView::KeyDown(name) => state.keys.insert(name),
            EventView::KeyUp(name) => state.keys.remove(name),
            EventView::ModifierFlagsChanged(flags) => keys_after_flags(state.keys, flags),
            EventView::MouseButtonDown(_) => state.keys,
        },
        last_event: now,
    }
}

/// What is shown for the modifier `name` after a change of the flags to the held keys
/// `after`, if the change pressed it.
pub open spec fn shown_for_modifier(
    after: Set<Seq<char>>,
    name: Seq<char>,
    pressed: bool,
    settings: SettingsView,
) -> Seq<Seq<char>> {
    if pressed {
        shown_if(key_combo(after, name, settings))
    } else {
        Seq::empty()
    }
}

/// The combos that `event` shows when it arrives while `keys` are held, in order.
///
/// A key going down shows its combo with the keys held after it, unless it repeats a held
/// modifier. A key going up shows nothing. A change of the modifier flags shows each
/// modifier that it pressed, as a key going down, in the order Meta, Shift, Ctrl, Alt;
/// releases show nothing. A mouse button going down shows its click.
pub open spec fn shown_for(keys: Set<Seq<char>>, event: EventView, settings: SettingsView) -> Seq<
    Seq<char>,
> {
    match event {
        EventView::KeyDown(name) => if is_modifier_repeat(keys, name) {
            Seq::empty()
        } else {
            shown_if(key_combo(keys.insert(name), name, settings))
        },
        EventView::KeyUp(_) => Seq::empty(),
        EventView::ModifierFlagsChanged(flags) => {
            let after = keys_after_flags(keys, flags);
            let pressed = newly_pressed(keys, flags);
            shown_for_modifier(after, "⌘"@, pressed.meta, settings) + shown_for_modifier(
                after,
                "Shift"@,
                pressed.shift,
                settings,
            ) + shown_for_modifier(after, "Ctrl"@, pressed.ctrl, settings) + shown_for_modifier(
                after,
                "Alt"@,
                pressed.alt,
                settings,
            )
        },
        EventView::MouseButtonDown(button) => shown_if(click_combo(keys, button, settings)),
    }
}

/// Appends a combo to the list of what is shown, if there is one.
fn push_shown(shown: &mut Vec<String>, combo: Option<String>)
    ensures
        texts(final(shown)@) == texts(old(shown)@) + shown_if(text_of(combo)),
{
    match combo {
        Some(text) => {
            shown.push(text);
            assert(texts(shown@) =~= texts(old(shown)@) + shown_if(text_of(combo)));
        },
        None => {
            assert(texts(shown@) =~= texts(old(shown)@) + shown_if(text_of(combo)));
        },
    }
}

/// Appends what is shown for the modifier `name`, if the change of flags pressed it.
fn push_modifier(
    shown: &mut Vec<String>,
    state: &HeldKeysState,
    name: &str,
    pressed: bool,
    settings: &ComboSettings,
)
    ensures
        texts(final(shown)@) == texts(old(shown)@) + shown_for_modifier(
            state@.keys,
            name@,
            pressed,
            settings@,
        ),
{
    if pressed {
        push_shown(shown, synthesize_key(state.keys(), name, settings));
    } else {
        assert(texts(shown@) =~= texts(old(shown)@) + Seq::<Seq<char>>::empty());
    }
}

/// Takes one input event that arrived at `now`: updates the held keys and returns the
/// combos to show, in order.
pub fn process_event(
    state: &mut HeldKeysState,
    event: &RawInputEvent,
    settings: &ComboSettings,
    now: u64,
) -> (shown: Vec<String>)
    requires
        old(state).wf(),
    ensures
        final(state).wf(),
        final(state)@ == state_after(old(state)@, event@, now),
        texts(shown@) == shown_for(old(state)@.keys, event@, settings@),
{
    let mut shown: Vec<String> = Vec::new();
    assert(texts(shown@) =~= Seq::<Seq<char>>::empty());
    match event {
        RawInputEvent::KeyDown(name) => {
            let fresh = state.key_down(name.as_str(), now);
            if fresh {
                push_shown(&mut shown, synthesize_key(state.keys(), name.as_str(), settings));
            }
        },
        RawInputEvent::KeyUp(name) => {
            state.key_up(name.as_str(), now);
        },
        RawInputEvent::ModifierFlagsChanged(flags) => {
            let pressed: ModifierFlags = state.modifiers_changed(*flags, now);
            push_modifier(&mut shown, state, "⌘", pressed.meta, settings);
            push_modifier(&mut shown, state, "Shift", pressed.shift, settings);
            push_modifier(&mut shown, state, "Ctrl", pressed.ctrl, settings);
            push_modifier(&mut shown, state, "Alt", pressed.alt, settings);
        },
        RawInputEvent::MouseButtonDown(button) => {
            state.touch(now);
            push_shown(&mut shown, synthesize_click(state.keys(), *button, settings));
        },
    }
    assert(texts(shown@) =~= shown_for(old(state)@.keys, event@, settings@));
    shown
}

/// The held keys do not remember the order in which keys went down: two keys that go down
/// in either order leave the same keys held.
pub proof fn lemma_press_order_is_forgotten(
    state: HeldView,
    first: Seq<char>,
    second: Seq<char>,
    now: u64,
)
    ensures
        state_after(state_after(state, EventView::KeyDown(first), now), EventView::KeyDown(second), now)
            == state_after(
            state_after(state, EventView::KeyDown(second), now),
            EventView::KeyDown(first),
            now,
        ),
{
    assert(state.keys.insert(first).insert(second) =~= state.keys.insert(second).insert(first));
}

/// Whether `flags` reports the modifier `name` as down; false for other names.
pub open spec fn reports_down(flags: ModifierFlags, name: Seq<char>) -> bool {
    (name == "⌘"@ && flags.meta) || (name == "Shift"@ && flags.shift) || (name == "Ctrl"@
        && flags.ctrl) || (name == "Alt"@ && flags.alt)
}

/// One press of a modifier is shown once, whichever report of it comes first. If the
/// key-down came first, a change of flags that reports the modifier as down shows nothing
/// for it. If the change of flags came first, the key-down is a repeat and shows nothing.
pub proof fn lemma_first_report_wins(
    keys: Set<Seq<char>>,
    flags: ModifierFlags,
    name: Seq<char>,
    settings: SettingsView,
)
    requires
        reports_down(flags, name),
    ensures
        shown_for_modifier(
            keys_after_flags(keys.insert(name), flags),
            name,
            reports_down(newly_pressed(keys.insert(name), flags), name),
            settings,
        ) == Seq::<Seq<char>>::empty(),
        shown_for(keys_after_flags(keys, flags), EventView::KeyDown(name), settings) == Seq::<
            Seq<char>,
        >::empty(),
{
    reveal_strlit("⌘");
    reveal_strlit("Shift");
    reveal_strlit("Ctrl");
    reveal_strlit("Alt");
    assert("⌘"@ != "Shift"@ && "⌘"@ != "Ctrl"@ && "⌘"@ != "Alt"@) by {
        assert("⌘"@.len() == 1);
    }
    assert("Shift"@ != "Ctrl"@) by {
        assert("Shift"@.len() == 5 && "Ctrl"@.len() == 4);
    }
    assert("Shift"@ != "Alt"@ && "Ctrl"@ != "Alt"@) by {
        assert("Alt"@.len() == 3);
    }
    assert(keys_after_flags(keys, flags).contains(name));
    assert(is_modifier(name));
}

/// Releases are not shown: a change of flags that presses nothing shows nothing, and
/// neither does a key going up.
pub proof fn lemma_releases_are_silent(
    keys: Set<Seq<char>>,
    flags: ModifierFlags,
    name: Seq<char>,
    settings: SettingsView,
)
    ensures
        newly_pressed(keys, flags) == (ModifierFlags {
            meta: false,
            shift: false,
            ctrl: false,
            alt: false,
        }) ==> shown_for(keys, EventView::ModifierFlagsChanged(flags), settings) == Seq::<
            Seq<char>,
        >::empty(),
        shown_for(keys, EventView::KeyUp(name), settings) == Seq::<Seq<char>>::empty(),
{
    if newly_pressed(keys, flags) == (ModifierFlags {
        meta: false,
        shift: false,
        ctrl: false,
        alt: false,
    }) {
        assert(shown_for(keys, EventView::ModifierFlagsChanged(flags), settings) =~= Seq::<
            Seq<char>,
        >::empty());
    }
}

/// Silence makes the held keys stale: the idle cleanup that runs at `tick` after an event
/// at `now` forgets the held keys exactly when more than the idle threshold lies between
/// the two.
pub proof fn lemma_idle_after_silence(state: HeldView, event: EventView, now: u64, tick: u64)
    ensures
        is_idle(state_after(state, event, now).last_event, tick) <==> tick - now
            > IDLE_THRESHOLD_MS,
{
}

} // verus!
