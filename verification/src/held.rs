//! The held-key tracker: the set of keys believed to be pressed, the time of the last
//! input event, and the idle cleanup that empties a stale set.

use vstd::prelude::*;
use crate::events::ModifierFlags;
use crate::keys::{is_modifier, is_modifier_name};

verus! {

/// A set of key names. The names are kept in a list without repetition: the held keys
/// are a handful of names, which a scan finds at once.
pub struct KeySet {
    names: Vec<String>,
}

impl View for KeySet {
    type V = Set<Seq<char>>;

    closed spec fn view(&self) -> Set<Seq<char>> {
        self.entries().to_set()
    }
}

impl KeySet {
    /// The names in the order in which the set stores them.
    pub closed spec fn entries(&self) -> Seq<Seq<char>> {
        self.names@.map_values(|s: String| s@)
    }

    /// The set is well formed: no name is stored twice. Every set that this module hands
    /// out is well formed.
    pub closed spec fn wf(&self) -> bool {
        self.entries().no_duplicates()
    }

    /// The empty set.
    pub fn new() -> (set: KeySet)
        ensures
            set.wf(),
            set@ == Set::<Seq<char>>::empty(),
    {
        let set = KeySet { names: Vec::new() };
        assert(set.entries() =~= Seq::<Seq<char>>::empty());
        assert(set@ =~= Set::<Seq<char>>::empty());
        set
    }

    /// The position of `name` among the stored names, if it is a member.
    fn position(&self, name: &str) -> (found: Option<usize>)
        ensures
            match found {
                Some(i) => i < self.entries().len() && self.entries()[i as int] == name@,
                None => !self.entries().contains(name@),
            },
    {
        let mut i: usize = 0;
        while i < self.names.len()
            invariant
                i <= self.names.len(),
                self.entries().len() == self.names.len(),
                forall|j: int| 0 <= j < i ==> self.entries()[j] != name@,
            decreases self.names.len() - i,
        {
            if self.names[i].as_str().eq(name) {
                return Some(i);
            }
            i += 1;
        }
        None
    }

    /// Whether `name` is a member.
    pub fn contains(&self, name: &str) -> (member: bool)
        ensures
            member == self@.contains(name@),
    {
        self.position(name).is_some()
    }

    /// Adds `name`; returns whether it was absent before.
    pub fn insert(&mut self, name: &str) -> (fresh: bool)
        requires
            old(self).wf(),
        ensures
            final(self).wf(),
            final(self)@ == old(self)@.insert(name@),
            fresh == !old(self)@.contains(name@),
    {
        match self.position(name) {
            Some(_) => {
                assert(self@ =~= old(self)@.insert(name@));
                false
            },
            None => {
                let ghost before = self.entries();
                self.names.push(name.to_owned());
                assert(self.entries() =~= before.push(name@));
                assert forall|k: Seq<char>| self@.contains(k) == old(self)@.insert(
                    name@,
                ).contains(k) by {
                    if before.push(name@).contains(k) {
                        let i = choose|i: int|
                            0 <= i < before.push(name@).len() && before.push(name@)[i] == k;
                        if i < before.len() {
                            assert(before[i] == k);
                        }
                    }
                    if before.contains(k) {
                        let i = choose|i: int| 0 <= i < before.len() && before[i] == k;
                        assert(before.push(name@)[i] == k);
                    }
                    if k == name@ {
                        assert(before.push(name@)[before.len() as int] == k);
                    }
                }
                assert(self@ =~= old(self)@.insert(name@));
                true
            },
        }
    }

    /// Removes `name`; returns whether it was a member.
    pub fn remove(&mut self, name: &str) -> (member: bool)
        requires
            old(self).wf(),
        ensures
            final(self).wf(),
            final(self)@ == old(self)@.remove(name@),
            member == old(self)@.contains(name@),
    {
        match self.position(name) {
            Some(i) => {
                let ghost before = self.entries();
                self.names.remove(i);
                let ghost after = before.remove(i as int);
                assert(self.entries() =~= after);
                assert forall|k: Seq<char>| self@.contains(k) == old(self)@.remove(
                    name@,
                ).contains(k) by {
                    if after.contains(k) {
                        let j = choose|j: int| 0 <= j < after.len() && after[j] == k;
                        if j < i {
                            assert(before[j] == k);
                        } else {
                            assert(before[j + 1] == k);
                        }
                    }
                    if before.contains(k) && k != name@ {
                        let j = choose|j: int| 0 <= j < before.len() && before[j] == k;
                        if j < i {
                            assert(after[j] == k);
                        } else {
                            assert(after[j - 1] == k);
                        }
                    }
                }
                assert(self@ =~= old(self)@.remove(name@));
                true
            },
            None => {
                assert(self@ =~= old(self)@.remove(name@));
                false
            },
        }
    }

    /// Removes every name.
    pub fn clear(&mut self)
        ensures
            final(self).wf(),
            final(self)@ == Set::<Seq<char>>::empty(),
    {
        self.names.clear();
        assert(self.entries() =~= Seq::<Seq<char>>::empty());
        assert(self@ =~= Set::<Seq<char>>::empty());
    }

    /// Whether the set has no member.
    pub fn is_empty(&self) -> (empty: bool)
        ensures
            empty == (self@ == Set::<Seq<char>>::empty()),
    {
        let empty = self.names.len() == 0;
        proof {
            if empty {
                assert(self.entries() =~= Seq::<Seq<char>>::empty());
                assert(self@ =~= Set::<Seq<char>>::empty());
            } else {
                assert(self.entries().contains(self.entries()[0]));
                assert(self@.contains(self.entries()[0]));
            }
        }
        empty
    }

    /// The number of members.
    pub fn len(&self) -> (n: usize)
        requires
            self.wf(),
        ensures
            self@.finite(),
            n == self@.len(),
    {
        proof {
            self.entries().unique_seq_to_set();
        }
        self.names.len()
    }
}

/// How long the input may stay silent, in milliseconds, before the held keys count as
/// stale.
pub const IDLE_THRESHOLD_MS: u64 = 5000;

/// The time between two runs of the idle cleanup, in milliseconds.
pub const REAPER_INTERVAL_MS: u64 = 5000;

/// The mathematical value of a [`HeldKeysState`].
pub struct HeldView {
    /// The names of the keys believed to be down.
    pub keys: Set<Seq<char>>,
    /// The time of the last input event, in milliseconds on the caller's clock.
    pub last_event: u64,
}

/// `keys` with `name` put in or taken out.
pub open spec fn with_member(keys: Set<Seq<char>>, name: Seq<char>, present: bool) -> Set<
    Seq<char>,
> {
    if present {
        keys.insert(name)
    } else {
        keys.remove(name)
    }
}

/// The held keys after the modifier flags changed to `flags`: Meta, Shift, Ctrl and Alt
/// are members exactly as the flags say, every other key as before.
pub open spec fn keys_after_flags(keys: Set<Seq<char>>, flags: ModifierFlags) -> Set<Seq<char>> {
    with_member(
        with_member(
            with_member(with_member(keys, "⌘"@, flags.meta), "Shift"@, flags.shift),
            "Ctrl"@,
            flags.ctrl,
        ),
        "Alt"@,
        flags.alt,
    )
}

/// The modifiers that `flags` reports as down and that were not held before.
pub open spec fn newly_pressed(keys: Set<Seq<char>>, flags: ModifierFlags) -> ModifierFlags {
    ModifierFlags {
        meta: flags.meta && !keys.contains("⌘"@),
        shift: flags.shift && !keys.contains("Shift"@),
        ctrl: flags.ctrl && !keys.contains("Ctrl"@),
        alt: flags.alt && !keys.contains("Alt"@),
    }
}

/// Whether a key going down is the repeat of a modifier that is held already.
pub open spec fn is_modifier_repeat(keys: Set<Seq<char>>, name: Seq<char>) -> bool {
    is_modifier(name) && keys.contains(name)
}

/// Whether the input has been silent for longer than the idle threshold at time `now`.
pub open spec fn is_idle(last_event: u64, now: u64) -> bool {
    now - last_event > IDLE_THRESHOLD_MS
}

/// The keys believed to be down, and when the last input event was seen.
pub struct HeldKeysState {
    keys: KeySet,
    last_event: u64,
}

impl View for HeldKeysState {
    type V = HeldView;

    closed spec fn view(&self) -> HeldView {
        HeldView { keys: self.keys@, last_event: self.last_event }
    }
}

impl HeldKeysState {
    /// The state is well formed. Every state that this module hands out is well formed.
    pub closed spec fn wf(&self) -> bool {
        self.keys.wf()
    }

    /// No key held, the last event at `now`.
    pub fn new(now: u64) -> (state: HeldKeysState)
        ensures
            state.wf(),
            state@ == (HeldView { keys: Set::<Seq<char>>::empty(), last_event: now }),
    {
        HeldKeysState { keys: KeySet::new(), last_event: now }
    }

    /// The held keys.
    pub fn keys(&self) -> (keys: &KeySet)
        ensures
            keys@ == self@.keys,
            self.wf() ==> keys.wf(),
    {
        &self.keys
    }

    /// The time of the last input event.
    pub fn last_event(&self) -> (at: u64)
        ensures
            at == self@.last_event,
    {
        self.last_event
    }

    /// Records that the key `name` went down at `now`. Returns false when this is the
    /// repeat of a modifier that is held already, for which nothing is shown.
    pub fn key_down(&mut self, name: &str, now: u64) -> (fresh: bool)
        requires
            old(self).wf(),
        ensures
            final(self).wf(),
            final(self)@ == (HeldView {
                keys: old(self)@.keys.insert(name@),
                last_event: now,
            }),
            fresh == !is_modifier_repeat(old(self)@.keys, name@),
    {
        self.last_event = now;
        let added = self.keys.insert(name);
        added || !is_modifier_name(name)
    }

    /// Records that the key `name` went up at `now`.
    pub fn key_up(&mut self, name: &str, now: u64)
        requires
            old(self).wf(),
        ensures
            final(self).wf(),
            final(self)@ == (HeldView {
                keys: old(self)@.keys.remove(name@),
                last_event: now,
            }),
    {
        self.last_event = now;
        self.keys.remove(name);
    }

    /// Makes `name` a member or not.
    fn set_member(&mut self, name: &str, present: bool)
        requires
            old(self).wf(),
        ensures
            final(self).wf(),
            final(self)@ == (HeldView {
                keys: with_member(old(self)@.keys, name@, present),
                last_event: old(self)@.last_event,
            }),
    {
        if present {
            self.keys.insert(name);
        } else {
            self.keys.remove(name);
        }
    }

    /// Records that the modifier flags changed to `flags` at `now`: the four modifiers are
    /// held exactly as the flags say. Returns the modifiers that went down with this change.
    pub fn modifiers_changed(&mut self, flags: ModifierFlags, now: u64) -> (pressed: ModifierFlags)
        requires
            old(self).wf(),
        ensures
            final(self).wf(),
            final(self)@ == (HeldView {
                keys: keys_after_flags(old(self)@.keys, flags),
                last_event: now,
            }),
            pressed == newly_pressed(old(self)@.keys, flags),
    {
        let pressed = ModifierFlags {
            meta: flags.meta && !self.keys.contains("⌘"),
            shift: flags.shift && !self.keys.contains("Shift"),
            ctrl: flags.ctrl && !self.keys.contains("Ctrl"),
            alt: flags.alt && !self.keys.contains("Alt"),
        };
        self.last_event = now;
        self.set_member("⌘", flags.meta);
        self.set_member("Shift", flags.shift);
        self.set_member("Ctrl", flags.ctrl);
        self.set_member("Alt", flags.alt);
        pressed
    }

    /// Records that a mouse button went down at `now`.
    pub fn touch(&mut self, now: u64)
        ensures
            final(self).wf() == old(self).wf(),
            final(self)@ == (HeldView { keys: old(self)@.keys, last_event: now }),
    {
        self.last_event = now;
    }

    /// Forgets every held key.
    pub fn clear(&mut self)
        ensures
            final(self).wf(),
            final(self)@ == (HeldView {
                keys: Set::<Seq<char>>::empty(),
                last_event: old(self)@.last_event,
            }),
    {
        self.keys.clear();
    }

    /// One run of the idle cleanup at `now`: if the input has been silent for longer than
    /// the idle threshold, every held key is forgotten. Returns whether it was.
    pub fn reap(&mut self, now: u64) -> (reaped: bool)
        ensures
            reaped == is_idle(old(self)@.last_event, now),
            final(self)@.last_event == old(self)@.last_event,
            reaped ==> final(self).wf() && final(self)@.keys == Set::<Seq<char>>::empty(),
            !reaped ==> *final(self) == *old(self),
    {
        if now > self.last_event && now - self.last_event > IDLE_THRESHOLD_MS {
            self.keys.clear();
            true
        } else {
            false
        }
    }
}

impl Default for HeldKeysState {
    /// No key held, the last event at the start of the clock.
    fn default() -> (state: HeldKeysState)
        ensures
            state.wf(),
            state@ == (HeldView { keys: Set::<Seq<char>>::empty(), last_event: 0 }),
    {
        HeldKeysState::new(0)
    }
}

} // verus!
