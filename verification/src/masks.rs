//! Bit-flag sets used across the entity schemas.
//!
//! Each mask is a fixed-width integer in which every defined bit names one
//! independent boolean attribute.  Construction goes through `from_bits`,
//! which rejects any bit outside the defined set: an unrecognized bit in the
//! source text is a hard parse failure, never a silently dropped bit.

use vstd::prelude::*;

verus! {

/// Resistance to the silence condition.
pub const RESIST_SILENCE: u32 = 0x1;
/// Resistance to the sleep condition.
pub const RESIST_SLEEP: u32 = 0x2;
/// Resistance to poison.
pub const RESIST_POISON: u32 = 0x4;
/// Resistance to paralysis.
pub const RESIST_PARALYSIS: u32 = 0x8;
/// Resistance to petrification.
pub const RESIST_PETRIFICATION: u32 = 0x10;
/// Resistance to level drain.
pub const RESIST_DRAIN: u32 = 0x20;
/// Resistance to knockout.
pub const RESIST_KNOCKOUT: u32 = 0x40;
/// Resistance to critical hits.
pub const RESIST_CRITICAL: u32 = 0x80;
/// Resistance to instant death.
pub const RESIST_DEATH: u32 = 0x100;
/// Resistance to fire damage.  Bit 9 is unused by the format.
pub const RESIST_FIRE: u32 = 0x400;
/// Resistance to cold damage.
pub const RESIST_COLD: u32 = 0x800;
/// Resistance to electric damage.
pub const RESIST_ELECTRIC: u32 = 0x1000;
/// Resistance to holy damage.
pub const RESIST_HOLY: u32 = 0x2000;
/// Resistance to untyped damage.
pub const RESIST_GENERIC: u32 = 0x4000;

/// Every bit a [`ResistMask`] may carry (bit 9 is not part of the format).
pub const RESIST_VALID_BITS: u32 = 0x7dff;

/// Attack inflicts the sleep condition.
pub const DEBUFF_SLEEP: u32 = 0x1;
/// Attack inflicts paralysis.
pub const DEBUFF_PARALYSIS: u32 = 0x2;
/// Attack inflicts petrification.
pub const DEBUFF_PETRIFICATION: u32 = 0x4;
/// Attack inflicts knockout.
pub const DEBUFF_KNOCKOUT: u32 = 0x8;
/// Attack inflicts critical hits.
pub const DEBUFF_CRITICAL: u32 = 0x10;

/// Every bit a [`DebuffMask`] may carry.
pub const DEBUFF_VALID_BITS: u32 = 0x1f;

/// Every bit a [`MonsterKindMask`] may carry: one per monster kind.
pub const MONSTER_KIND_VALID_BITS: u32 = 0x7fff;

/// A set of elemental/condition resistances.
#[derive(Clone, Copy, Debug, PartialEq, Eq, Structural)]
pub struct ResistMask {
    pub bits: u32,
}

/// A set of conditions an attack may inflict.
#[derive(Clone, Copy, Debug, PartialEq, Eq, Structural)]
pub struct DebuffMask {
    pub bits: u32,
}

/// A set of monster kinds (slay/protect/dispel targets).
#[derive(Clone, Copy, Debug, PartialEq, Eq, Structural)]
pub struct MonsterKindMask {
    pub bits: u32,
}

impl ResistMask {
    /// Whether every set bit is one the format defines.
    pub open spec fn wf(self) -> bool {
        self.bits & RESIST_VALID_BITS == self.bits
    }

    /// The empty resistance set.
    pub fn empty() -> (r: ResistMask)
        ensures
            r.bits == 0,
    {
        ResistMask { bits: 0 }
    }

    /// Builds the set, rejecting any bit outside the defined ones.
    pub fn from_bits(bits: u32) -> (r: Option<ResistMask>)
        ensures
            bits & RESIST_VALID_BITS == bits ==> r == Some(ResistMask { bits }),
            bits & RESIST_VALID_BITS != bits ==> r is None,
    {
        if bits & RESIST_VALID_BITS == bits {
            Some(ResistMask { bits })
        } else {
            None
        }
    }

    /// The raw bit set.
    pub fn bits(self) -> (r: u32)
        ensures
            r == self.bits,
    {
        self.bits
    }

    /// Whether every flag of `other` is also in `self`.
    pub fn contains(self, other: ResistMask) -> (r: bool)
        ensures
            r == (self.bits & other.bits == other.bits),
    {
        self.bits & other.bits == other.bits
    }
}

impl DebuffMask {
    /// Whether every set bit is one the format defines.
    pub open spec fn wf(self) -> bool {
        self.bits & DEBUFF_VALID_BITS == self.bits
    }

    /// The empty debuff set.
    pub fn empty() -> (r: DebuffMask)
        ensures
            r.bits == 0,
    {
        DebuffMask { bits: 0 }
    }

    /// Builds the set, rejecting any bit outside the defined ones.
    pub fn from_bits(bits: u32) -> (r: Option<DebuffMask>)
        ensures
            bits & DEBUFF_VALID_BITS == bits ==> r == Some(DebuffMask { bits }),
            bits & DEBUFF_VALID_BITS != bits ==> r is None,
    {
        if bits & DEBUFF_VALID_BITS == bits {
            Some(DebuffMask { bits })
        } else {
            None
        }
    }

    /// The raw bit set.
    pub fn bits(self) -> (r: u32)
        ensures
            r == self.bits,
    {
        self.bits
    }

    /// Whether every flag of `other` is also in `self`.
    pub fn contains(self, other: DebuffMask) -> (r: bool)
        ensures
            r == (self.bits & other.bits == other.bits),
    {
        self.bits & other.bits == other.bits
    }
}

impl MonsterKindMask {
    /// Whether every set bit is one the format defines.
    pub open spec fn wf(self) -> bool {
        self.bits & MONSTER_KIND_VALID_BITS == self.bits
    }

    /// The empty kind set.
    pub fn empty() -> (r: MonsterKindMask)
        ensures
            r.bits == 0,
    {
        MonsterKindMask { bits: 0 }
    }

    /// Builds the set, rejecting any bit outside the defined ones.
    pub fn from_bits(bits: u32) -> (r: Option<MonsterKindMask>)
        ensures
            bits & MONSTER_KIND_VALID_BITS == bits ==> r == Some(MonsterKindMask { bits }),
            bits & MONSTER_KIND_VALID_BITS != bits ==> r is None,
    {
        if bits & MONSTER_KIND_VALID_BITS == bits {
            Some(MonsterKindMask { bits })
        } else {
            None
        }
    }

    /// The raw bit set.
    pub fn bits(self) -> (r: u32)
        ensures
            r == self.bits,
    {
        self.bits
    }

    /// Whether every flag of `other` is also in `self`.
    pub fn contains(self, other: MonsterKindMask) -> (r: bool)
        ensures
            r == (self.bits & other.bits == other.bits),
    {
        self.bits & other.bits == other.bits
    }
}

} // verus!
