//! Modifier-key bitsets: the eight physical modifier keys a window tracks, and
//! the four logical modifiers reported to the application.

use vstd::prelude::*;

verus! {

/// Bit of the left control key.
pub const LEFT_CONTROL: u8 = 1;

/// Bit of the right control key.
pub const RIGHT_CONTROL: u8 = 2;

/// Bit of the left shift key.
pub const LEFT_SHIFT: u8 = 4;

/// Bit of the right shift key.
pub const RIGHT_SHIFT: u8 = 8;

/// Bit of the left alt key.
pub const LEFT_ALT: u8 = 16;

/// Bit of the right alt key.
pub const RIGHT_ALT: u8 = 32;

/// Bit of the left super key.
pub const LEFT_SUPER: u8 = 64;

/// Bit of the right super key.
pub const RIGHT_SUPER: u8 = 128;

/// Bit of the logical shift modifier.
pub const SHIFT: u8 = 1;

/// Bit of the logical control modifier.
pub const CONTROL: u8 = 2;

/// Bit of the logical alt modifier.
pub const ALT: u8 = 4;

/// Bit of the logical super modifier.
pub const SUPER: u8 = 8;

/// The set of physical modifier keys that are currently held, one bit per key.
/// Every bit pattern is a valid set.
#[derive(Clone, Copy, Debug, PartialEq, Eq, Structural)]
pub struct KeyModifiers {
    pub bits: u8,
}

impl KeyModifiers {
    /// Whether the two sets share a key.
    pub open spec fn spec_intersects(self, mask: u8) -> bool {
        self.bits & mask != 0
    }

    /// Whether every key of `mask` is in the set.
    pub open spec fn spec_contains(self, mask: u8) -> bool {
        self.bits & mask == mask
    }

    /// The set with each key of `mask` flipped.
    pub open spec fn spec_toggle(self, mask: u8) -> KeyModifiers {
        KeyModifiers { bits: self.bits ^ mask }
    }

    /// The set with no key held.
    pub fn empty() -> (r: KeyModifiers)
        ensures
            r.bits == 0,
    {
        KeyModifiers { bits: 0 }
    }

    /// The set whose bits are `bits`.
    pub fn from_bits(bits: u8) -> (r: KeyModifiers)
        ensures
            r.bits == bits,
    {
        KeyModifiers { bits }
    }

    /// The raw bits of the set.
    pub fn bits(&self) -> (r: u8)
        ensures
            r == self.bits,
    {
        self.bits
    }

    /// Whether no key is held.
    pub fn is_empty(&self) -> (r: bool)
        ensures
            r == (self.bits == 0),
    {
        self.bits == 0
    }

    /// Whether at least one key of `mask` is held.
    pub fn intersects(&self, mask: u8) -> (r: bool)
        ensures
            r == self.spec_intersects(mask),
    {
        self.bits & mask != 0
    }

    /// Whether all keys of `mask` are held.
    pub fn contains(&self, mask: u8) -> (r: bool)
        ensures
            r == self.spec_contains(mask),
    {
        self.bits & mask == mask
    }

    /// Flips each key of `mask`: held keys are released, released keys are held.
    pub fn toggle(&mut self, mask: u8)
        ensures
            *final(self) == old(self).spec_toggle(mask),
    {
        self.bits = self.bits ^ mask;
    }
}

/// The set of logical modifiers reported with a key event. Only the four low
/// bits are ever set.
#[derive(Clone, Copy, Debug, PartialEq, Eq, Structural)]
pub struct ScriptKeyModifiers {
    pub bits: u8,
}

impl ScriptKeyModifiers {
    /// Only the four defined modifier bits are set.
    pub open spec fn wf(self) -> bool {
        self.bits <= 15
    }

    /// Whether every modifier of `mask` is in the set.
    pub open spec fn spec_contains(self, mask: u8) -> bool {
        self.bits & mask == mask
    }

    /// The set with no modifier.
    pub fn empty() -> (r: ScriptKeyModifiers)
        ensures
            r.bits == 0,
            r.wf(),
    {
        ScriptKeyModifiers { bits: 0 }
    }

    /// The raw bits of the set.
    pub fn bits(&self) -> (r: u8)
        ensures
            r == self.bits,
    {
        self.bits
    }

    /// Whether no modifier is set.
    pub fn is_empty(&self) -> (r: bool)
        ensures
            r == (self.bits == 0),
    {
        self.bits == 0
    }

    /// Whether all modifiers of `mask` are set.
    pub fn contains(&self, mask: u8) -> (r: bool)
        ensures
            r == self.spec_contains(mask),
    {
        self.bits & mask == mask
    }

    /// Adds the modifiers of `mask` to the set. Adding defined modifiers to a
    /// well-formed set leaves it well-formed.
    pub fn insert(&mut self, mask: u8)
        ensures
            final(self).bits == old(self).bits | mask,
            old(self).wf() && mask <= 15 ==> final(self).wf(),
    {
        proof {
            let b = self.bits;
            assert(b <= 15 && mask <= 15 ==> (b | mask) <= 15) by (bit_vector);
        }
        self.bits = self.bits | mask;
    }
}

/// Whether either shift key is held.
pub open spec fn shift_held(m: KeyModifiers) -> bool {
    m.bits & 12 != 0
}

/// Whether either control key is held.
pub open spec fn control_held(m: KeyModifiers) -> bool {
    m.bits & 3 != 0
}

/// Whether either alt key is held.
pub open spec fn alt_held(m: KeyModifiers) -> bool {
    m.bits & 48 != 0
}

/// Whether either super key is held.
pub open spec fn super_held(m: KeyModifiers) -> bool {
    m.bits & 192 != 0
}

/// The logical modifiers that a set of held keys amounts to: each logical
/// modifier is set exactly when its left or right key is held.
pub open spec fn script_mods(m: KeyModifiers) -> ScriptKeyModifiers {
    ScriptKeyModifiers {
        bits: ((if shift_held(m) { 1int } else { 0int })
            + (if control_held(m) { 2int } else { 0int })
            + (if alt_held(m) { 4int } else { 0int })
            + (if super_held(m) { 8int } else { 0int })) as u8,
    }
}

/// Collapses the held left and right keys into logical modifiers.
pub fn glutin_mods_to_script_mods(modifiers: KeyModifiers) -> (result: ScriptKeyModifiers)
    ensures
        result == script_mods(modifiers),
        result.wf(),
{
    let mut result = ScriptKeyModifiers::empty();
    if modifiers.intersects(LEFT_SHIFT | RIGHT_SHIFT) {
        result.insert(SHIFT);
    }
    if modifiers.intersects(LEFT_CONTROL | RIGHT_CONTROL) {
        result.insert(CONTROL);
    }
    if modifiers.intersects(LEFT_ALT | RIGHT_ALT) {
        result.insert(ALT);
    }
    if modifiers.intersects(LEFT_SUPER | RIGHT_SUPER) {
        result.insert(SUPER);
    }
    proof {
        assert(4u8 | 8u8 == 12u8) by (bit_vector);
        assert(1u8 | 2u8 == 3u8) by (bit_vector);
        assert(16u8 | 32u8 == 48u8) by (bit_vector);
        assert(64u8 | 128u8 == 192u8) by (bit_vector);
        assert(forall|r: u8| r == 0 ==> #[trigger] (r | 1u8) == 1) by (bit_vector);
        assert(forall|r: u8| r <= 1 ==> #[trigger] (r | 2u8) == r + 2) by (bit_vector);
        assert(forall|r: u8| r <= 3 ==> #[trigger] (r | 4u8) == r + 4) by (bit_vector);
        assert(forall|r: u8| r <= 7 ==> #[trigger] (r | 8u8) == r + 8) by (bit_vector);
    }
    result
}

/// The logical modifiers of a set of held keys, bit by bit: a logical modifier
/// is reported exactly when one of its two keys is held, and nothing else is
/// reported.
pub proof fn lemma_script_mods_bits(m: KeyModifiers)
    ensures
        script_mods(m).wf(),
        script_mods(m).spec_contains(SHIFT) <==> m.spec_intersects(LEFT_SHIFT)
            || m.spec_intersects(RIGHT_SHIFT),
        script_mods(m).spec_contains(CONTROL) <==> m.spec_intersects(LEFT_CONTROL)
            || m.spec_intersects(RIGHT_CONTROL),
        script_mods(m).spec_contains(ALT) <==> m.spec_intersects(LEFT_ALT) || m.spec_intersects(
            RIGHT_ALT,
        ),
        script_mods(m).spec_contains(SUPER) <==> m.spec_intersects(LEFT_SUPER)
            || m.spec_intersects(RIGHT_SUPER),
        m.bits == 0 ==> script_mods(m).bits == 0,
{
    let b = m.bits;
    let s = script_mods(m).bits;
    assert((b & 12 != 0) <==> (b & 4 != 0 || b & 8 != 0)) by (bit_vector);
    assert((b & 3 != 0) <==> (b & 1 != 0 || b & 2 != 0)) by (bit_vector);
    assert((b & 48 != 0) <==> (b & 16 != 0 || b & 32 != 0)) by (bit_vector);
    assert((b & 192 != 0) <==> (b & 64 != 0 || b & 128 != 0)) by (bit_vector);
    assert(b == 0 ==> b & 12 == 0 && b & 3 == 0 && b & 48 == 0 && b & 192 == 0) by (bit_vector);
    assert(s <= 15 ==> ((s & 1 == 1) <==> (s == 1 || s == 3 || s == 5 || s == 7 || s == 9 || s
        == 11 || s == 13 || s == 15))) by (bit_vector);
    assert(s <= 15 ==> ((s & 2 == 2) <==> (s == 2 || s == 3 || s == 6 || s == 7 || s == 10 || s
        == 11 || s == 14 || s == 15))) by (bit_vector);
    assert(s <= 15 ==> ((s & 4 == 4) <==> (s == 4 || s == 5 || s == 6 || s == 7 || s == 12 || s
        == 13 || s == 14 || s == 15))) by (bit_vector);
    assert(s <= 15 ==> ((s & 8 == 8) <==> (s >= 8))) by (bit_vector);
}

/// Pressing and releasing one modifier key leaves the set of held keys as it
/// was: toggling the same keys twice restores the set.
pub proof fn lemma_toggle_twice(m: KeyModifiers, mask: u8)
    ensures
        m.spec_toggle(mask).spec_toggle(mask) == m,
{
    let b = m.bits;
    assert((b ^ mask) ^ mask == b) by (bit_vector);
}

/// Toggling a key changes whether it is held and leaves every other key
/// alone: the toggled keys are all held afterwards exactly when none of them was
/// held before, and the bits outside the mask keep their value.
pub proof fn lemma_toggle_flips(m: KeyModifiers, key: u8, other: u8)
    requires
        key & other == 0,
    ensures
        m.spec_toggle(key).spec_contains(key) <==> !m.spec_intersects(key),
        !m.spec_toggle(key).spec_intersects(key) <==> m.spec_contains(key),
        m.spec_toggle(key).bits & other == m.bits & other,
{
    let b = m.bits;
    assert(key & other == 0 ==> (b ^ key) & other == b & other) by (bit_vector);
    assert(((b ^ key) & key == key) <==> (b & key == 0)) by (bit_vector);
    assert(((b ^ key) & key == 0) <==> (b & key == key)) by (bit_vector);
}

} // verus!
