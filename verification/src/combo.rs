//! Combo synthesis: from the held keys, the key or button that was just pressed and the
//! settings to the text that is shown, or to nothing.

use vstd::prelude::*;
use crate::held::KeySet;
use crate::keys::{is_modifier, is_modifier_name};
use crate::settings::{ComboSettings, SettingsView};
use crate::text::{
    chars_of,
    is_whitespace,
    string_of,
    text_of,
    trim_bounds,
    trimmed,
    uppercase,
};

verus! {

/// Whether `name` is one of the modifiers that lead a combo: Meta, which is named `⌘` or
/// `Win`, Ctrl, Alt or Shift.
pub open spec fn is_prefix_modifier(name: Seq<char>) -> bool {
    name == "⌘"@ || name == "Win"@ || name == "Ctrl"@ || name == "Alt"@ || name == "Shift"@
}

/// `name` as a list: the one name if it is among `keys`, nothing otherwise.
pub open spec fn member_part(keys: Set<Seq<char>>, name: Seq<char>) -> Seq<Seq<char>> {
    if keys.contains(name) {
        seq![name]
    } else {
        Seq::empty()
    }
}

/// The leading modifiers among `keys`, in the fixed order Meta, Ctrl, Alt, Shift, Meta
/// under the name that is among the keys.
pub open spec fn leading_modifiers(keys: Set<Seq<char>>) -> Seq<Seq<char>> {
    member_part(keys, "⌘"@) + member_part(keys, "Win"@) + member_part(keys, "Ctrl"@)
        + member_part(keys, "Alt"@) + member_part(keys, "Shift"@)
}

/// The trigger as the last part of a combo: present unless it is one of the leading
/// modifiers, which have their own place.
pub open spec fn trigger_part(trigger: Seq<char>) -> Seq<Seq<char>> {
    if is_prefix_modifier(trigger) {
        Seq::empty()
    } else {
        seq![trigger]
    }
}

/// The parts of the combo of `trigger`, in order: the leading modifiers among the held
/// keys and the trigger, and then the trigger if it is none of them. So the trigger is a
/// part exactly once, and a trigger that is a leading modifier stands at its place in the
/// fixed order.
pub open spec fn combo_parts(held: Set<Seq<char>>, trigger: Seq<char>) -> Seq<Seq<char>> {
    leading_modifiers(held.insert(trigger)) + trigger_part(trigger)
}

/// The parts in order with `separator` between neighbours.
pub open spec fn joined(parts: Seq<Seq<char>>, separator: Seq<char>) -> Seq<char>
    decreases parts.len(),
{
    if parts.len() == 0 {
        Seq::empty()
    } else if parts.len() == 1 {
        parts[0]
    } else {
        joined(parts.drop_last(), separator) + separator + parts.last()
    }
}

/// The combo of `trigger` with the held modifiers: its parts joined by `+`.
pub open spec fn combo_text(held: Set<Seq<char>>, trigger: Seq<char>) -> Seq<char> {
    joined(combo_parts(held, trigger), "+"@)
}

/// `modifier` and a `+` if it is held, nothing otherwise.
pub open spec fn held_part(held: Set<Seq<char>>, modifier: Seq<char>) -> Seq<char> {
    if held.contains(modifier) {
        modifier + "+"@
    } else {
        Seq::empty()
    }
}

/// The parts in order, each followed by `separator`.
pub open spec fn each_followed(parts: Seq<Seq<char>>, separator: Seq<char>) -> Seq<char>
    decreases parts.len(),
{
    if parts.len() == 0 {
        Seq::empty()
    } else {
        each_followed(parts.drop_last(), separator) + parts.last() + separator
    }
}

/// Joining parts and one more is writing each part with the separator after it, and then
/// the last one.
proof fn lemma_joined_push(parts: Seq<Seq<char>>, last: Seq<char>, separator: Seq<char>)
    ensures
        joined(parts.push(last), separator) == each_followed(parts, separator) + last,
    decreases parts.len(),
{
    let all = parts.push(last);
    assert(all.drop_last() =~= parts);
    if parts.len() == 0 {
        assert(joined(all, separator) =~= each_followed(parts, separator) + last);
    } else {
        lemma_joined_push(parts.drop_last(), parts.last(), separator);
        assert(parts.drop_last().push(parts.last()) =~= parts);
        assert(joined(all, separator) =~= each_followed(parts, separator) + last);
    }
}

/// Writing the parts of two lists is writing those of the first and then of the second.
proof fn lemma_each_followed_add(a: Seq<Seq<char>>, b: Seq<Seq<char>>, separator: Seq<char>)
    ensures
        each_followed(a + b, separator) == each_followed(a, separator) + each_followed(
            b,
            separator,
        ),
    decreases b.len(),
{
    if b.len() == 0 {
        assert(a + b =~= a);
        assert(each_followed(a + b, separator) =~= each_followed(a, separator) + each_followed(
            b,
            separator,
        ));
    } else {
        lemma_each_followed_add(a, b.drop_last(), separator);
        assert((a + b).drop_last() =~= a + b.drop_last());
        assert((a + b).last() == b.last());
        assert(each_followed(a + b, separator) =~= each_followed(a, separator) + each_followed(
            b,
            separator,
        ));
    }
}

/// One held name written with `+` after it.
proof fn lemma_member_followed(keys: Set<Seq<char>>, name: Seq<char>)
    ensures
        each_followed(member_part(keys, name), "+"@) == held_part(keys, name),
{
    let part = member_part(keys, name);
    if keys.contains(name) {
        assert(part.drop_last() =~= Seq::<Seq<char>>::empty());
        assert(part.last() == name);
        assert(each_followed(part.drop_last(), "+"@) =~= Seq::<char>::empty());
        assert(each_followed(part, "+"@) =~= name + "+"@);
    }
}

/// The prefix is in the order Meta, Ctrl, Alt, Shift: the combo of a key that is no
/// modifier is made of the held ones among these, Meta under the name that is held, in
/// this order and each followed by `+`, and then the key.
pub proof fn lemma_prefix_order(held: Set<Seq<char>>, trigger: Seq<char>)
    requires
        !is_modifier(trigger),
    ensures
        combo_text(held, trigger) == held_part(held, "⌘"@) + held_part(held, "Win"@) + held_part(
            held,
            "Ctrl"@,
        ) + held_part(held, "Alt"@) + held_part(held, "Shift"@) + trigger,
{
    let plus = "+"@;
    let a = member_part(held, "⌘"@);
    let b = member_part(held, "Win"@);
    let c = member_part(held, "Ctrl"@);
    let d = member_part(held, "Alt"@);
    let e = member_part(held, "Shift"@);
    let leading = leading_modifiers(held);
    assert(leading_modifiers(held.insert(trigger)) =~= leading);
    assert(combo_parts(held, trigger) =~= leading.push(trigger));
    lemma_joined_push(leading, trigger, plus);
    lemma_each_followed_add(a + b + c + d, e, plus);
    lemma_each_followed_add(a + b + c, d, plus);
    lemma_each_followed_add(a + b, c, plus);
    lemma_each_followed_add(a, b, plus);
    lemma_member_followed(held, "⌘"@);
    lemma_member_followed(held, "Win"@);
    lemma_member_followed(held, "Ctrl"@);
    lemma_member_followed(held, "Alt"@);
    lemma_member_followed(held, "Shift"@);
}

/// The combo of a pure modifier is a list of modifier names: every part of it is a pure
/// modifier, and the trigger is one of the parts. For a trigger that is one of the
/// leading modifiers, the parts are the leading modifiers among the held keys and the
/// trigger, in the fixed order.
pub proof fn lemma_modifier_combo(held: Set<Seq<char>>, trigger: Seq<char>)
    requires
        is_modifier(trigger),
    ensures
        forall|i: int|
            0 <= i < combo_parts(held, trigger).len() ==> is_modifier(
                #[trigger] combo_parts(held, trigger)[i],
            ),
        combo_parts(held, trigger).contains(trigger),
        is_prefix_modifier(trigger) ==> combo_text(held, trigger) == joined(
            leading_modifiers(held.insert(trigger)),
            "+"@,
        ),
{
    let keys = held.insert(trigger);
    let a = member_part(keys, "⌘"@);
    let b = member_part(keys, "Win"@);
    let c = member_part(keys, "Ctrl"@);
    let d = member_part(keys, "Alt"@);
    let e = member_part(keys, "Shift"@);
    let t = trigger_part(trigger);
    let parts = combo_parts(held, trigger);
    assert(parts == a + b + c + d + e + t);
    assert forall|i: int| 0 <= i < parts.len() implies is_modifier(#[trigger] parts[i]) by {
        lemma_part_of(a, b, c, d, e, t, i);
    }
    if trigger == "⌘"@ {
        assert(parts[0] == trigger);
    } else if trigger == "Win"@ {
        assert(parts[a.len() as int] == trigger);
    } else if trigger == "Ctrl"@ {
        assert(parts[(a + b).len() as int] == trigger);
    } else if trigger == "Alt"@ {
        assert(parts[(a + b + c).len() as int] == trigger);
    } else if trigger == "Shift"@ {
        assert(parts[(a + b + c + d).len() as int] == trigger);
    } else {
        assert(parts[(a + b + c + d + e).len() as int] == trigger);
    }
    if is_prefix_modifier(trigger) {
        assert(parts =~= leading_modifiers(keys));
    }
}

/// Each element of a concatenation of six lists is an element of one of them.
proof fn lemma_part_of(
    a: Seq<Seq<char>>,
    b: Seq<Seq<char>>,
    c: Seq<Seq<char>>,
    d: Seq<Seq<char>>,
    e: Seq<Seq<char>>,
    t: Seq<Seq<char>>,
    i: int,
)
    requires
        0 <= i < (a + b + c + d + e + t).len(),
    ensures
        a.contains((a + b + c + d + e + t)[i]) || b.contains((a + b + c + d + e + t)[i])
            || c.contains((a + b + c + d + e + t)[i]) || d.contains((a + b + c + d + e + t)[i])
            || e.contains((a + b + c + d + e + t)[i]) || t.contains((a + b + c + d + e + t)[i]),
{
    let all = a + b + c + d + e + t;
    if i < a.len() {
        assert(a[i] == all[i]);
    } else if i < (a + b).len() {
        assert(b[i - a.len()] == all[i]);
    } else if i < (a + b + c).len() {
        assert(c[i - (a + b).len()] == all[i]);
    } else if i < (a + b + c + d).len() {
        assert(d[i - (a + b + c).len()] == all[i]);
    } else if i < (a + b + c + d + e).len() {
        assert(e[i - (a + b + c + d).len()] == all[i]);
    } else {
        assert(t[i - (a + b + c + d + e).len()] == all[i]);
    }
}

/// The order in which the keys went down has no part in the combo, and neither have held
/// keys other than the leading modifiers: two sets of held keys that agree on Meta, Ctrl,
/// Alt and Shift give every trigger the same combo.
pub proof fn lemma_prefix_depends_on_modifiers_only(
    held: Set<Seq<char>>,
    other: Set<Seq<char>>,
    trigger: Seq<char>,
)
    requires
        held.contains("⌘"@) == other.contains("⌘"@),
        held.contains("Win"@) == other.contains("Win"@),
        held.contains("Ctrl"@) == other.contains("Ctrl"@),
        held.contains("Alt"@) == other.contains("Alt"@),
        held.contains("Shift"@) == other.contains("Shift"@),
    ensures
        combo_text(held, trigger) == combo_text(other, trigger),
{
    assert(combo_parts(held, trigger) =~= combo_parts(other, trigger));
}

/// Appends `modifier` to the combo under construction if it is a part of it.
fn append_modifier(
    result: &mut String,
    held: &KeySet,
    trigger: &str,
    modifier: &str,
    Ghost(parts): Ghost<Seq<Seq<char>>>,
) -> (next: Ghost<Seq<Seq<char>>>)
    requires
        modifier@.len() > 0,
        old(result)@ == joined(parts, "+"@),
        (parts.len() == 0) == (old(result)@.len() == 0),
    ensures
        next@ == parts + member_part(held@.insert(trigger@), modifier@),
        final(result)@ == joined(next@, "+"@),
        (next@.len() == 0) == (final(result)@.len() == 0),
{
    if held.contains(modifier) || trigger.eq(modifier) {
        if !result.as_str().is_empty() {
            result.append("+");
        }
        result.append(modifier);
        let ghost next = parts.push(modifier@);
        proof {
            assert(next =~= parts + member_part(held@.insert(trigger@), modifier@));
            assert(next.drop_last() =~= parts);
            assert(next.last() == modifier@);
        }
        Ghost(next)
    } else {
        proof {
            assert(parts =~= parts + member_part(held@.insert(trigger@), modifier@));
        }
        Ghost(parts)
    }
}

/// Tells whether `name` is one of the modifiers that lead a combo.
fn is_prefix_modifier_name(name: &str) -> (r: bool)
    ensures
        r == is_prefix_modifier(name@),
{
    name.eq("⌘") || name.eq("Win") || name.eq("Ctrl") || name.eq("Alt") || name.eq("Shift")
}

/// Builds the combo string of `trigger` with the held modifiers, such as `Ctrl+Shift+A`:
/// the held ones of Meta, Ctrl, Alt and Shift in this order, and the trigger, joined by
/// `+`. A trigger that is one of these modifiers stands at its place in the order.
pub fn build_combo(held: &KeySet, trigger: &str) -> (combo: String)
    ensures
        combo@ == combo_text(held@, trigger@),
{
    proof {
        reveal_strlit("⌘");
        reveal_strlit("Win");
        reveal_strlit("Ctrl");
        reveal_strlit("Alt");
        reveal_strlit("Shift");
    }
    let mut result = String::new();
    let ghost none = Seq::<Seq<char>>::empty();
    let meta = append_modifier(&mut result, held, trigger, "⌘", Ghost(none));
    let win = append_modifier(&mut result, held, trigger, "Win", meta);
    let ctrl = append_modifier(&mut result, held, trigger, "Ctrl", win);
    let alt = append_modifier(&mut result, held, trigger, "Alt", ctrl);
    let shift = append_modifier(&mut result, held, trigger, "Shift", alt);
    if !is_prefix_modifier_name(trigger) {
        if !result.as_str().is_empty() {
            result.append("+");
        }
        result.append(trigger);
        proof {
            let parts = shift@.push(trigger@);
            assert(parts.drop_last() =~= shift@);
            assert(parts.last() == trigger@);
            assert(parts =~= combo_parts(held@, trigger@));
        }
    } else {
        assert(shift@ =~= combo_parts(held@, trigger@));
    }
    result
}

/// Whether `c` separates the entries of a key filter.
pub open spec fn is_separator(c: char) -> bool {
    c == ',' || c == ' '
}

/// Whether `s[lo..hi]` is one of the pieces into which the separators cut `s`: it holds no
/// separator, and on each side it ends at a separator or at the end of `s`.
pub open spec fn is_piece(s: Seq<char>, lo: int, hi: int) -> bool {
    &&& 0 <= lo <= hi <= s.len()
    &&& lo == 0 || is_separator(s[lo - 1])
    &&& hi == s.len() || is_separator(s[hi])
    &&& forall|k: int| lo <= k < hi ==> !is_separator(#[trigger] s[k])
}

/// Whether the filter entry written as `piece` names the key whose upper-case name is
/// `key_upper`: trimmed it is not empty, and in upper case it is not empty and equals
/// `key_upper`.
pub open spec fn entry_matches(piece: Seq<char>, key_upper: Seq<char>) -> bool {
    let entry = uppercase(trimmed(piece));
    trimmed(piece).len() > 0 && entry.len() > 0 && entry == key_upper
}

/// Whether the key filter `filter` lets the key `key_name` through. A filter that is empty
/// or all white space lets every key through; any other lets a key through when one of its
/// entries equals the key's name, letter case aside.
pub open spec fn filter_allows(filter: Seq<char>, key_name: Seq<char>) -> bool {
    let list = trimmed(filter);
    list.len() == 0 || exists|lo: int, hi: int|
        is_piece(list, lo, hi) && entry_matches(
            #[trigger] list.subrange(lo, hi),
            uppercase(key_name),
        )
}

/// Tests one entry of a filter against the upper-case name of a key.
fn entry_matches_key(chars: &Vec<char>, from: usize, to: usize, key_upper: &String) -> (matches:
    bool)
    requires
        from <= to <= chars.len(),
    ensures
        matches == entry_matches(chars@.subrange(from as int, to as int), key_upper@),
{
    let (a, b) = trim_bounds(chars, from, to);
    if a == b {
        return false;
    }
    let entry = string_of(chars, a, b).as_str().to_uppercase();
    !entry.as_str().is_empty() && entry == *key_upper
}

/// Returns true if the key should be shown given the filter string: a list of key names
/// separated by commas or spaces, compared without regard to letter case. An empty filter
/// shows every key.
pub fn key_filter_allows(filter: &str, key_name: &str) -> (allowed: bool)
    ensures
        allowed == filter_allows(filter@, key_name@),
{
    let chars = chars_of(filter);
    let (lo, hi) = trim_bounds(&chars, 0, chars.len());
    assert(chars@.subrange(0, chars.len() as int) =~= filter@);
    if lo == hi {
        return true;
    }
    let key_upper = key_name.to_uppercase();
    let ghost list = chars@.subrange(lo as int, hi as int);
    let mut start: usize = lo;
    let mut i: usize = lo;
    while i < hi
        invariant
            lo <= start <= i <= hi <= chars.len(),
            list == chars@.subrange(lo as int, hi as int),
            list == trimmed(filter@),
            key_upper@ == uppercase(key_name@),
            start == lo || is_separator(chars@[start - 1]),
            forall|k: int| start <= k < i ==> !is_separator(#[trigger] chars@[k]),
            forall|a: int, b: int|
                is_piece(list, a, b) && b < start - lo ==> !entry_matches(
                    #[trigger] list.subrange(a, b),
                    key_upper@,
                ),
        decreases hi - i,
    {
        let c = chars[i];
        if c == ',' || c == ' ' {
            let hit = entry_matches_key(&chars, start, i, &key_upper);
            proof {
                assert(list.subrange(start - lo, i - lo) =~= chars@.subrange(
                    start as int,
                    i as int,
                ));
                assert(list[i - lo] == chars@[i as int]);
                assert(start > lo ==> list[start - lo - 1] == chars@[start - 1]);
                assert forall|k: int| start - lo <= k < i - lo implies !is_separator(
                    #[trigger] list[k],
                ) by {
                    assert(list[k] == chars@[k + lo]);
                }
                assert(is_piece(list, start - lo, i - lo));
            }
            if hit {
                return true;
            }
            proof {
                assert forall|a: int, b: int|
                    is_piece(list, a, b) && b < i + 1 - lo implies !entry_matches(
                        #[trigger] list.subrange(a, b),
                        key_upper@,
                    ) by {
                    if b >= start - lo {
                        lemma_piece_start(list, start - lo, i - lo, a, b);
                    }
                }
            }
            start = i + 1;
        }
        i += 1;
    }
    let hit = entry_matches_key(&chars, start, hi, &key_upper);
    proof {
        assert(list.subrange(start - lo, hi - lo) =~= chars@.subrange(start as int, hi as int));
        assert(start > lo ==> list[start - lo - 1] == chars@[start - 1]);
        assert forall|k: int| start - lo <= k < hi - lo implies !is_separator(
            #[trigger] list[k],
        ) by {
            assert(list[k] == chars@[k + lo]);
        }
        assert(is_piece(list, start - lo, hi - lo));
        if !hit {
            assert forall|a: int, b: int| is_piece(list, a, b) implies !entry_matches(
                #[trigger] list.subrange(a, b),
                key_upper@,
            ) by {
                if b >= start - lo {
                    lemma_piece_start(list, start - lo, hi - lo, a, b);
                }
            }
        }
    }
    hit
}

/// A mouse button whose clicks are shown.
#[derive(Clone, Copy, Debug, PartialEq, Eq, Structural)]
pub enum MouseButton {
    Left,
    Right,
}

/// The name under which a click of `button` is shown.
pub open spec fn click_name(button: MouseButton) -> Seq<char> {
    match button {
        MouseButton::Left => "LClick"@,
        MouseButton::Right => "RClick"@,
    }
}

impl MouseButton {
    /// The name under which a click of this button is shown: `LClick` or `RClick`.
    pub fn name(self) -> (name: &'static str)
        ensures
            name@ == click_name(self),
    {
        match self {
            MouseButton::Left => "LClick",
            MouseButton::Right => "RClick",
        }
    }
}

/// What sets a combo off: a key going down, or a mouse button going down.
#[derive(Debug)]
pub enum Trigger {
    Key(String),
    Click(MouseButton),
}

/// The mathematical value of a [`Trigger`].
pub enum TriggerView {
    Key(Seq<char>),
    Click(MouseButton),
}

impl View for Trigger {
    type V = TriggerView;

    open spec fn view(&self) -> TriggerView {
        match self {
            Trigger::Key(name) => TriggerView::Key(name@),
            Trigger::Click(button) => TriggerView::Click(*button),
        }
    }
}

/// Whether a text is never shown: the empty text, and the placeholder `?` of a key
/// without a name.
pub open spec fn is_blank(text: Seq<char>) -> bool {
    text.len() == 0 || text == "?"@
}

/// Whether the settings let the key `key` through their filter.
pub open spec fn passes_filter(key: Seq<char>, settings: SettingsView) -> bool {
    !settings.key_filter_enabled || filter_allows(settings.key_filter, key)
}

/// What is shown when the key `key` goes down while `held` is held, if anything.
///
/// A pure modifier is shown only if modifiers are shown alone; a key that the filter
/// rejects is not shown; the text is the combo in combo mode and the bare key name
/// otherwise; a blank text is not shown.
pub open spec fn key_combo(held: Set<Seq<char>>, key: Seq<char>, settings: SettingsView) -> Option<
    Seq<char>,
> {
    let text = if settings.combo_mode {
        combo_text(held, key)
    } else {
        key
    };
    if is_modifier(key) && !settings.show_modifiers_alone {
        None
    } else if !passes_filter(key, settings) {
        None
    } else if is_blank(text) {
        None
    } else {
        Some(text)
    }
}

/// Without combo mode a key is shown bare: what is shown for a key going down is the
/// key's name, or nothing, and the held keys have no part in it.
pub proof fn lemma_bare_without_combo_mode(
    held: Set<Seq<char>>,
    other: Set<Seq<char>>,
    key: Seq<char>,
    settings: SettingsView,
)
    requires
        !settings.combo_mode,
    ensures
        key_combo(held, key, settings) is Some ==> key_combo(held, key, settings) == Some(key),
        key_combo(held, key, settings) == key_combo(other, key, settings),
{
}

/// Whether a pure modifier is among the held keys.
pub open spec fn modifier_held(held: Set<Seq<char>>) -> bool {
    exists|name: Seq<char>| held.contains(name) && is_modifier(name)
}

/// What is shown when `button` goes down while `held` is held, if anything: with a
/// modifier held, the combo if mouse combos are shown; with none held, the bare click
/// name if plain clicks are shown.
pub open spec fn click_combo(held: Set<Seq<char>>, button: MouseButton, settings: SettingsView)
    -> Option<Seq<char>> {
    if modifier_held(held) && settings.show_mouse_click_combos {
        Some(combo_text(held, click_name(button)))
    } else if !modifier_held(held) && settings.show_mouse_clicks {
        Some(click_name(button))
    } else {
        None
    }
}

/// What is shown for `trigger` while `held` is held, if anything.
pub open spec fn synthesized(held: Set<Seq<char>>, trigger: TriggerView, settings: SettingsView)
    -> Option<Seq<char>> {
    match trigger {
        TriggerView::Key(key) => key_combo(held, key, settings),
        TriggerView::Click(button) => click_combo(held, button, settings),
    }
}

/// Tells whether a pure modifier is among the held keys.
pub fn has_modifier(held: &KeySet) -> (any: bool)
    ensures
        any == modifier_held(held@),
{
    let any = held.contains("⌘") || held.contains("Win") || held.contains("Shift")
        || held.contains("Ctrl") || held.contains("Alt") || held.contains("Caps")
        || held.contains("Fn");
    proof {
        if held@.contains("⌘"@) {
            assert(is_modifier("⌘"@));
        }
        if held@.contains("Win"@) {
            assert(is_modifier("Win"@));
        }
        if held@.contains("Shift"@) {
            assert(is_modifier("Shift"@));
        }
        if held@.contains("Ctrl"@) {
            assert(is_modifier("Ctrl"@));
        }
        if held@.contains("Alt"@) {
            assert(is_modifier("Alt"@));
        }
        if held@.contains("Caps"@) {
            assert(is_modifier("Caps"@));
        }
        if held@.contains("Fn"@) {
            assert(is_modifier("Fn"@));
        }
    }
    any
}

/// Synthesizes what is shown when the key `key` goes down while `held` is held.
pub fn synthesize_key(held: &KeySet, key: &str, settings: &ComboSettings) -> (combo: Option<
    String,
>)
    ensures
        text_of(combo) == key_combo(held@, key@, settings@),
{
    if is_modifier_name(key) && !settings.show_modifiers_alone {
        return None;
    }
    if settings.key_filter_enabled && !key_filter_allows(settings.key_filter.as_str(), key) {
        return None;
    }
    let text = if settings.combo_mode {
        build_combo(held, key)
    } else {
        key.to_owned()
    };
    if text.as_str().is_empty() || text.as_str().eq("?") {
        None
    } else {
        Some(text)
    }
}

/// Synthesizes what is shown when `button` goes down while `held` is held.
pub fn synthesize_click(held: &KeySet, button: MouseButton, settings: &ComboSettings) -> (combo:
    Option<String>)
    ensures
        text_of(combo) == click_combo(held@, button, settings@),
{
    let with_modifier = has_modifier(held);
    if with_modifier && settings.show_mouse_click_combos {
        Some(build_combo(held, button.name()))
    } else if !with_modifier && settings.show_mouse_clicks {
        Some(button.name().to_owned())
    } else {
        None
    }
}

/// Synthesizes what is shown for `trigger` while `held` is held: the combo, or `None`
/// when nothing is shown.
pub fn synthesize(held: &KeySet, trigger: &Trigger, settings: &ComboSettings) -> (combo: Option<
    String,
>)
    ensures
        text_of(combo) == synthesized(held@, trigger@, settings@),
{
    match trigger {
        Trigger::Key(key) => synthesize_key(held, key.as_str(), settings),
        Trigger::Click(button) => synthesize_click(held, *button, settings),
    }
}

/// Whether `word` can stand in a filter as an entry as it is: it is not empty and holds
/// neither a separator nor white space.
pub open spec fn is_word(word: Seq<char>) -> bool {
    &&& word.len() > 0
    &&& forall|k: int|
        0 <= k < word.len() ==> !is_separator(#[trigger] word[k]) && !is_whitespace(word[k])
}

/// A filter that lists two keys, with a comma and a space between them, lets a key
/// through exactly when the key's name is one of the two, letter case aside.
pub proof fn lemma_filter_of_two(first: Seq<char>, second: Seq<char>, key: Seq<char>)
    requires
        is_word(first),
        is_word(second),
    ensures
        filter_allows(first + ", "@ + second, key) <==> entry_matches(first, uppercase(key))
            || entry_matches(second, uppercase(key)),
        entry_matches(first, uppercase(key)) <==> uppercase(first).len() > 0 && uppercase(first)
            == uppercase(key),
        entry_matches(second, uppercase(key)) <==> uppercase(second).len() > 0 && uppercase(
            second,
        ) == uppercase(key),
{
    reveal_strlit(", ");
    let list = first + ", "@ + second;
    let upper = uppercase(key);
    let n1 = first.len() as int;
    let n = list.len() as int;
    assert(list[0] == first[0]);
    assert(list.last() == second.last());
    assert(trimmed(list) == list);
    assert(first.first() == first[0]);
    assert(second.first() == second[0]);
    assert(trimmed(first) == first);
    assert(trimmed(second) == second);
    assert(list[n1] == ',' && list[n1 + 1] == ' ');
    assert forall|k: int| 0 <= k < n1 implies !is_separator(#[trigger] list[k]) by {
        assert(list[k] == first[k]);
    }
    assert forall|k: int| n1 + 2 <= k < n implies !is_separator(#[trigger] list[k]) by {
        assert(list[k] == second[k - n1 - 2]);
    }
    assert(is_piece(list, 0, n1));
    assert(is_piece(list, n1 + 1, n1 + 1));
    assert(is_piece(list, n1 + 2, n));
    assert(list.subrange(0, n1) =~= first);
    assert(list.subrange(n1 + 2, n) =~= second);
    assert(list.subrange(n1 + 1, n1 + 1) =~= Seq::<char>::empty());
    assert(trimmed(Seq::<char>::empty()) =~= Seq::<char>::empty());
    if filter_allows(list, key) {
        let (lo, hi) = choose|lo: int, hi: int|
            is_piece(list, lo, hi) && entry_matches(#[trigger] list.subrange(lo, hi), upper);
        if hi <= n1 {
            if hi < n1 {
                assert(!is_separator(list[hi]));
            }
            lemma_piece_start(list, 0, n1, lo, hi);
        } else if hi == n1 + 1 {
            lemma_piece_start(list, n1 + 1, n1 + 1, lo, hi);
        } else {
            if hi < n {
                assert(!is_separator(list[hi]));
            }
            lemma_piece_start(list, n1 + 2, n, lo, hi);
        }
    }
}

/// Two pieces of one string that overlap or touch are the same piece: a piece that ends
/// within `[lo, hi]`, where `s[lo..hi]` is a piece, is that piece.
proof fn lemma_piece_start(s: Seq<char>, lo: int, hi: int, a: int, b: int)
    requires
        is_piece(s, lo, hi),
        is_piece(s, a, b),
        lo <= b <= hi,
    ensures
        a == lo,
        b == hi,
{
    if b < hi {
        assert(!is_separator(s[b]));
    }
    if a < lo {
        assert(!is_separator(s[lo - 1]));
    }
    if a > lo {
        assert(!is_separator(s[a - 1]));
    }
}

} // verus!
