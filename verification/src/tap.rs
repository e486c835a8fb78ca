use vstd::prelude::*;
use std::collections::HashMap;
use crate::keymap::lookup_key;

verus! {

broadcast use vstd::std_specs::hash::group_hash_axioms;

/// The kinds of keyboard events the tap listens to.
#[derive(PartialEq, Eq, Structural, Clone, Copy, Debug)]
pub enum KeyEventKind {
    KeyDown,
    KeyUp,
    /// A modifier key went down or up.
    FlagsChanged,
}

/// Which recorded sample of a pack a keystroke plays.
#[derive(PartialEq, Eq, Structural, Clone, Copy, Debug)]
pub enum SampleChoice {
    /// The sample mapped to this sound-pack key code.
    Mapped(u64),
    /// The pack's default sample with this index.
    Default(usize),
}

/// What a keystroke sounds like.
#[derive(PartialEq, Eq, Structural, Clone, Copy, Debug)]
pub enum KeySound {
    /// Nothing is played.
    Silent,
    /// The procedural engine synthesises the sound.
    Procedural,
    /// A recorded sample of the pack is played.
    Sample(SampleChoice),
}

/// State that the keyboard tap keeps between events: the last modifier
/// flags seen, and the rotation cursor over the pack's default samples.
pub struct KeyTap {
    previous_flags: u64,
    default_cursor: usize,
}

/// Whether an event is a key release: a key-up, or a modifier change that
/// clears flags (the new flag word is smaller than the previous one).
pub open spec fn spec_is_keyup(kind: KeyEventKind, flags: u64, previous_flags: u64) -> bool {
    match kind {
        KeyEventKind::KeyDown => false,
        KeyEventKind::KeyUp => true,
        KeyEventKind::FlagsChanged => flags < previous_flags,
    }
}

/// The default sample that the cursor `cursor` picks among `n` samples.
pub open spec fn default_pick(cursor: nat, n: nat) -> nat {
    cursor % n
}

/// The cursor after a default pick.
pub open spec fn cursor_after_pick(cursor: nat, n: nat) -> nat {
    cursor % n + 1
}

/// The sample that a key press plays and the cursor afterwards: the mapped
/// sample when the key's code has one, else the next default sample in
/// rotation, else none.
pub open spec fn spec_choose_sample(
    keymap: Map<u16, u64>,
    mapped: Set<u64>,
    keycode: u16,
    n_defaults: nat,
    cursor: nat,
) -> (Option<SampleChoice>, nat) {
    if keymap.contains_key(keycode) && mapped.contains(keymap[keycode]) {
        (Some(SampleChoice::Mapped(keymap[keycode])), cursor)
    } else if n_defaults > 0 {
        (
            Some(SampleChoice::Default(default_pick(cursor, n_defaults) as usize)),
            cursor_after_pick(cursor, n_defaults),
        )
    } else {
        (None, cursor)
    }
}

impl KeyTap {
    pub closed spec fn previous_flags(&self) -> u64 {
        self.previous_flags
    }

    pub closed spec fn default_cursor(&self) -> nat {
        self.default_cursor as nat
    }

    /// A tap that has seen no event.
    pub fn new() -> (r: Self)
        ensures
            r.previous_flags() == 0,
            r.default_cursor() == 0,
    {
        KeyTap { previous_flags: 0, default_cursor: 0 }
    }

    /// Classifies an event: `Some(is_keyup)` when it is to be sounded,
    /// `None` for an auto-repeated press. `flags` is read only for a modifier
    /// change, whose flags become the previous ones.
    pub fn classify(&mut self, kind: KeyEventKind, autorepeat_field: i64, flags: u64) -> (r: Option<
        bool,
    >)
        ensures
            ({
                let up = spec_is_keyup(kind, flags, old(self).previous_flags());
                r == if autorepeat_field != 0 && !up {
                    None
                } else {
                    Some(up)
                }
            }),
            final(self).previous_flags() == if kind == KeyEventKind::FlagsChanged {
                flags
            } else {
                old(self).previous_flags()
            },
            final(self).default_cursor() == old(self).default_cursor(),
    {
        let is_autorepeat = autorepeat_field != 0;
        let mut is_keyup = match kind {
            KeyEventKind::KeyUp => true,
            _ => false,
        };
        match kind {
            KeyEventKind::FlagsChanged => {
                is_keyup = flags < self.previous_flags;
                self.previous_flags = flags;
            },
            _ => {},
        }
        if is_autorepeat && !is_keyup {
            None
        } else {
            Some(is_keyup)
        }
    }

    /// Picks the sample for a key press with key-code field `keycode_field`
    /// (read as a 16-bit code) in a pack whose mapped samples are `mappings`
    /// and that has `n_defaults` default samples.
    pub fn choose_sample<V>(
        &mut self,
        keymap: &HashMap<u16, u64>,
        keycode_field: i64,
        mappings: &HashMap<u64, V>,
        n_defaults: usize,
    ) -> (r: Option<SampleChoice>)
        ensures
            ({
                let (c, cur) = spec_choose_sample(
                    keymap@,
                    mappings@.dom(),
                    keycode_field as u16,
                    n_defaults as nat,
                    old(self).default_cursor(),
                );
                r == c && final(self).default_cursor() == cur
            }),
            final(self).previous_flags() == old(self).previous_flags(),
    {
        let keycode = keycode_field as u16;
        if let Some(code) = lookup_key(keymap, keycode) {
            if mappings.contains_key(&code) {
                return Some(SampleChoice::Mapped(code));
            }
        }
        if n_defaults > 0 {
            let idx = self.default_cursor % n_defaults;
            self.default_cursor = idx + 1;
            Some(SampleChoice::Default(idx))
        } else {
            None
        }
    }

    /// What a sounded keystroke plays: the procedural engine on press and
    /// release when the pack is procedural, otherwise a sample on press only.
    pub fn sound_for<V>(
        &mut self,
        is_keyup: bool,
        procedural: bool,
        keymap: &HashMap<u16, u64>,
        keycode_field: i64,
        mappings: &HashMap<u64, V>,
        n_defaults: usize,
    ) -> (r: KeySound)
        ensures
            procedural ==> r == KeySound::Procedural && final(self).default_cursor()
                == old(self).default_cursor(),
            !procedural && is_keyup ==> r == KeySound::Silent && final(self).default_cursor()
                == old(self).default_cursor(),
            !procedural && !is_keyup ==> ({
                let (c, cur) = spec_choose_sample(
                    keymap@,
                    mappings@.dom(),
                    keycode_field as u16,
                    n_defaults as nat,
                    old(self).default_cursor(),
                );
                &&& r == match c {
                    Some(s) => KeySound::Sample(s),
                    None => KeySound::Silent,
                }
                &&& final(self).default_cursor() == cur
            }),
            final(self).previous_flags() == old(self).previous_flags(),
    {
        if procedural {
            KeySound::Procedural
        } else if !is_keyup {
            match self.choose_sample(keymap, keycode_field, mappings, n_defaults) {
                Some(s) => KeySound::Sample(s),
                None => KeySound::Silent,
            }
        } else {
            KeySound::Silent
        }
    }
}

/// The cursor after `k` default picks among `n` samples, from a fresh tap.
pub open spec fn cursor_after_picks(n: nat, k: nat) -> nat
    decreases k,
{
    if k == 0 {
        0
    } else {
        cursor_after_pick(cursor_after_picks(n, (k - 1) as nat), n)
    }
}

/// Default samples are played in rotation: from a fresh tap, the `k`-th
/// default pick (counting from 0) is sample `k mod n`.
pub proof fn lemma_defaults_rotate(n: nat, k: nat)
    requires
        n > 0,
    ensures
        default_pick(cursor_after_picks(n, k), n) == k % n,
    decreases k,
{
    if k > 0 {
        lemma_defaults_rotate(n, (k - 1) as nat);
        let c = cursor_after_picks(n, (k - 1) as nat);
        let j = (k - 1) as int;
        assert(c % n == j % (n as int));
        vstd::arithmetic::div_mod::lemma_add_mod_noop_right(1, j, n as int);
        vstd::arithmetic::div_mod::lemma_add_mod_noop_right(1, c as int, n as int);
        assert((1 + c as int) % (n as int) == (1 + j) % (n as int));
    }
}

/// What a key press plays, for every key code: a key whose sound-pack code
/// has a mapped sample plays that sample and leaves the cursor; any other
/// key, whether or not the key table knows it, plays the default sample at
/// the cursor (wrapped) and moves the cursor one past it; a press is silent
/// only in a pack without default samples.
pub proof fn lemma_press_choice(
    keymap: Map<u16, u64>,
    mapped: Set<u64>,
    keycode: u16,
    n_defaults: usize,
    cursor: nat,
)
    ensures
        ({
            let (c, cur) = spec_choose_sample(keymap, mapped, keycode, n_defaults as nat, cursor);
            &&& n_defaults > 0 ==> c is Some
            &&& c is None ==> n_defaults == 0 && cur == cursor
            &&& (keymap.contains_key(keycode) && mapped.contains(keymap[keycode])) ==> c == Some(
                SampleChoice::Mapped(keymap[keycode]),
            ) && cur == cursor
            &&& !(keymap.contains_key(keycode) && mapped.contains(keymap[keycode])) && n_defaults
                > 0 ==> c == Some(SampleChoice::Default((cursor % (n_defaults as nat)) as usize)) && cur
                == cursor % (n_defaults as nat) + 1
            &&& forall|code: u64| c == Some(SampleChoice::Mapped(code)) ==> keymap.contains_key(
                keycode,
            ) && keymap[keycode] == code && mapped.contains(code)
            &&& forall|i: usize| c == Some(SampleChoice::Default(i)) ==> i < n_defaults && cur == i + 1
        }),
{
    if n_defaults > 0 {
        let n = n_defaults as nat;
        assert(cursor % n < n) by (nonlinear_arith)
            requires
                n > 0,
        ;
    }
}

} // verus!

