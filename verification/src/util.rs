//! Shared helpers: ASCII trimming and the digit-scan decoders for
//! flag-set fields.
//!
//! A flag-set field is decoded by scanning each character as a single
//! digit (decimal or hexadecimal depending on the field) and setting the
//! corresponding bit; the accumulated bits are then validated against the
//! bits the mask type defines.

use crate::error::FieldError;
use crate::masks::MonsterKindMask;
use crate::masks::ResistMask;
use crate::masks::MONSTER_KIND_VALID_BITS;
use crate::masks::RESIST_VALID_BITS;
use crate::text::chars_of;
use crate::text::dec_digit;
use crate::text::dec_val;
use crate::text::hex_digit;
use crate::text::hex_val;
use crate::text::is_dec_digit;
use crate::text::is_hex_digit;
use crate::text::string_from_chars;
use crate::text::trim_chars;
use crate::text::trim_spec;
use crate::text::trim_start_chars;
use crate::text::trim_start_spec;
use vstd::prelude::*;

verus! {

/// Copies `s` with ASCII whitespace trimmed from both ends.
pub fn trim_ascii(s: &str) -> (r: String)
    ensures
        r@ == trim_spec(s@),
{
    let chars = chars_of(s);
    let trimmed = trim_chars(chars.as_slice());
    string_from_chars(trimmed.as_slice())
}

/// Copies `s` with leading ASCII whitespace trimmed.
pub fn trim_start_ascii(s: &str) -> (r: String)
    ensures
        r@ == trim_start_spec(s@),
{
    let chars = chars_of(s);
    let trimmed = trim_start_chars(chars.as_slice());
    string_from_chars(trimmed.as_slice())
}

// ----------------------------------------------------------------------
// digit scans
// ----------------------------------------------------------------------

/// Whether every character of `s` is a hexadecimal digit.
pub open spec fn hex_scan_ok(s: Seq<char>) -> bool {
    forall|i: int| 0 <= i < s.len() ==> is_hex_digit(s[i])
}

/// The bit set accumulated by scanning `s` as hexadecimal digits: each
/// digit `d` sets bit `d`.
pub open spec fn hex_bits(s: Seq<char>) -> u32
    decreases s.len(),
{
    if s.len() == 0 {
        0
    } else {
        hex_bits(s.drop_last()) | (1u32 << (hex_val(s.last()) as u32))
    }
}

/// Whether every character of `s` is a decimal digit.
pub open spec fn dec_scan_ok(s: Seq<char>) -> bool {
    forall|i: int| 0 <= i < s.len() ==> is_dec_digit(s[i])
}

/// The bit set accumulated by scanning `s` as decimal digits.
pub open spec fn dec_bits(s: Seq<char>) -> u32
    decreases s.len(),
{
    if s.len() == 0 {
        0
    } else {
        dec_bits(s.drop_last()) | (1u32 << (dec_val(s.last()) as u32))
    }
}

/// Scans `s` as hexadecimal digits into a bit set.
pub fn scan_hex_bits(s: &[char]) -> (r: Option<u32>)
    ensures
        match r {
            Some(bits) => hex_scan_ok(s@) && bits == hex_bits(s@),
            None => !hex_scan_ok(s@),
        },
{
    let n = s.len();
    let mut bits: u32 = 0;
    let mut i: usize = 0;
    while i < n
        invariant
            0 <= i <= n == s@.len(),
            forall|j: int| 0 <= j < i ==> is_hex_digit(s@[j]),
            bits == hex_bits(s@.take(i as int)),
        decreases n - i,
    {
        let d = match hex_digit(s[i]) {
            Some(d) => d,
            None => {
                return None;
            },
        };
        proof {
            assert(s@.take(i + 1).drop_last() =~= s@.take(i as int));
            assert(s@.take(i + 1).last() == s@[i as int]);
        }
        bits = bits | (1u32 << d);
        i = i + 1;
    }
    proof {
        assert(s@.take(n as int) =~= s@);
    }
    Some(bits)
}

/// Scans `s` as decimal digits into a bit set.
pub fn scan_dec_bits(s: &[char]) -> (r: Option<u32>)
    ensures
        match r {
            Some(bits) => dec_scan_ok(s@) && bits == dec_bits(s@),
            None => !dec_scan_ok(s@),
        },
{
    let n = s.len();
    let mut bits: u32 = 0;
    let mut i: usize = 0;
    while i < n
        invariant
            0 <= i <= n == s@.len(),
            forall|j: int| 0 <= j < i ==> is_dec_digit(s@[j]),
            bits == dec_bits(s@.take(i as int)),
        decreases n - i,
    {
        let d = match dec_digit(s[i]) {
            Some(d) => d,
            None => {
                return None;
            },
        };
        proof {
            assert(s@.take(i + 1).drop_last() =~= s@.take(i as int));
            assert(s@.take(i + 1).last() == s@[i as int]);
        }
        bits = bits | (1u32 << d);
        i = i + 1;
    }
    proof {
        assert(s@.take(n as int) =~= s@);
    }
    Some(bits)
}

// ----------------------------------------------------------------------
// the generic resistance and monster-kind decoders
// ----------------------------------------------------------------------

/// What the generic resistance decode yields: the hexadecimal digit scan,
/// validated against the resistance mask's defined bits (bit position
/// equals flag position).
pub open spec fn resist_mask_spec(s: Seq<char>) -> Result<ResistMask, FieldError> {
    if !hex_scan_ok(s) {
        Err(FieldError::Number)
    } else if hex_bits(s) & RESIST_VALID_BITS != hex_bits(s) {
        Err(FieldError::UnknownFlagBit { bits: hex_bits(s) })
    } else {
        Ok(ResistMask { bits: hex_bits(s) })
    }
}

/// Decodes a generic resistance flag-set field (used by races and items).
pub fn parse_resist_mask_chars(s: &[char]) -> (r: Result<ResistMask, FieldError>)
    ensures
        r == resist_mask_spec(s@),
        r matches Ok(m) ==> m.wf(),
{
    let bits = match scan_hex_bits(s) {
        Some(bits) => bits,
        None => {
            return Err(FieldError::Number);
        },
    };
    match ResistMask::from_bits(bits) {
        Some(m) => Ok(m),
        None => Err(FieldError::UnknownFlagBit { bits }),
    }
}

/// Decodes a generic resistance flag-set field given as a string.
pub fn parse_resist_mask(s: &str) -> (r: Result<ResistMask, FieldError>)
    ensures
        r == resist_mask_spec(s@),
        r matches Ok(m) ==> m.wf(),
{
    let chars = chars_of(s);
    parse_resist_mask_chars(chars.as_slice())
}

/// What the monster-kind mask decode yields: the hexadecimal digit scan,
/// validated against the kind mask's defined bits.
pub open spec fn monster_kind_mask_spec(s: Seq<char>) -> Result<MonsterKindMask, FieldError> {
    if !hex_scan_ok(s) {
        Err(FieldError::Number)
    } else if hex_bits(s) & MONSTER_KIND_VALID_BITS != hex_bits(s) {
        Err(FieldError::UnknownFlagBit { bits: hex_bits(s) })
    } else {
        Ok(MonsterKindMask { bits: hex_bits(s) })
    }
}

/// Decodes a monster-kind flag-set field (slay/protect/dispel targets).
pub fn parse_monster_kind_mask_chars(s: &[char]) -> (r: Result<MonsterKindMask, FieldError>)
    ensures
        r == monster_kind_mask_spec(s@),
        r matches Ok(m) ==> m.wf(),
{
    let bits = match scan_hex_bits(s) {
        Some(bits) => bits,
        None => {
            return Err(FieldError::Number);
        },
    };
    match MonsterKindMask::from_bits(bits) {
        Some(m) => Ok(m),
        None => Err(FieldError::UnknownFlagBit { bits }),
    }
}

/// Decodes a monster-kind flag-set field given as a string.
pub fn parse_monster_kind_mask(s: &str) -> (r: Result<MonsterKindMask, FieldError>)
    ensures
        r == monster_kind_mask_spec(s@),
        r matches Ok(m) ==> m.wf(),
{
    let chars = chars_of(s);
    parse_monster_kind_mask_chars(chars.as_slice())
}

// ----------------------------------------------------------------------
// small positional masks (sex, alignment)
// ----------------------------------------------------------------------

/// What a small positional mask decode yields: each character must be a
/// decimal digit below `limit`, and digit `d` sets bit `d`; the first
/// offending character decides the error.
pub open spec fn limited_mask_spec(s: Seq<char>, limit: nat) -> Result<u8, FieldError>
    decreases s.len(),
{
    if s.len() == 0 {
        Ok(0u8)
    } else if !is_dec_digit(s[0]) {
        Err(FieldError::Number)
    } else if dec_val(s[0]) >= limit {
        Err(FieldError::UnknownFlagBit { bits: 1u32 << (dec_val(s[0]) as u32) })
    } else {
        match limited_mask_spec(s.drop_first(), limit) {
            Err(e) => Err(e),
            Ok(m) => Ok(m | (1u8 << (dec_val(s[0]) as u32))),
        }
    }
}

/// Decodes a small positional mask: digits below `limit` set their bit.
pub fn parse_limited_mask(s: &[char], limit: u32) -> (r: Result<u8, FieldError>)
    requires
        1 <= limit <= 8,
    ensures
        r == limited_mask_spec(s@, limit as nat),
    decreases s@.len(),
{
    if s.len() == 0 {
        return Ok(0);
    }
    let d = match dec_digit(s[0]) {
        Some(d) => d,
        None => {
            return Err(FieldError::Number);
        },
    };
    if d >= limit {
        return Err(FieldError::UnknownFlagBit { bits: 1u32 << d });
    }
    let rest = crate::text::copy_range(s, 1, s.len());
    proof {
        assert(rest@ =~= s@.drop_first());
    }
    match parse_limited_mask(rest.as_slice(), limit) {
        Err(e) => Err(e),
        Ok(m) => Ok(m | (1u8 << d)),
    }
}

} // verus!
