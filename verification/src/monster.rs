//! Monsters: the `Monster` entity sequence.
//!
//! The monster schema is the widest: a record must have at least 49
//! `<>`-delimited fields (trailing fields are reserved for future
//! extension), and its resistance and vulnerability flag-sets use a bit
//! ordering of their own, remapped through a fixed 13-entry table
//! into the generic resistance flags.

use crate::error::EntityKind;
use crate::error::FieldError;
use crate::error::LoadError;
use crate::kvs::lemma_run_bound;
use crate::kvs::seq_key;
use crate::kvs::Kvs;
use crate::masks::DebuffMask;
use crate::masks::ResistMask;
use crate::masks::DEBUFF_VALID_BITS;
use crate::masks::RESIST_COLD;
use crate::masks::RESIST_CRITICAL;
use crate::masks::RESIST_DEATH;
use crate::masks::RESIST_ELECTRIC;
use crate::masks::RESIST_FIRE;
use crate::masks::RESIST_GENERIC;
use crate::masks::RESIST_HOLY;
use crate::masks::RESIST_KNOCKOUT;
use crate::masks::RESIST_PARALYSIS;
use crate::masks::RESIST_PETRIFICATION;
use crate::masks::RESIST_POISON;
use crate::masks::RESIST_SILENCE;
use crate::masks::RESIST_SLEEP;
use crate::text::angle_fields;
use crate::text::chars_of;
use crate::text::parse_bool_chars;
use crate::text::parse_bool_spec;
use crate::text::parse_i32_chars;
use crate::text::parse_i32_spec;
use crate::text::parse_u32_chars;
use crate::text::parse_u32_list;
use crate::text::parse_u32_spec;
use crate::text::parse_u8_chars;
use crate::text::parse_u8_spec;
use crate::text::split_str;
use crate::text::string_from_chars;
use crate::text::u32_list_ok;
use crate::text::u32_list_val;
use crate::util::dec_bits;
use crate::util::dec_scan_ok;
use crate::util::hex_bits;
use crate::util::hex_scan_ok;
use crate::util::scan_dec_bits;
use crate::util::scan_hex_bits;
use vstd::prelude::*;

pub use crate::masks::MonsterKindMask;

verus! {

/// The kind of a monster, from its fixed code table.
#[derive(Clone, Copy, Debug, PartialEq, Eq, Hash, Structural)]
pub enum MonsterKind {
    Fighter,
    Mage,
    Priest,
    Thief,
    Midget,
    Giant,
    Myth,
    Dragon,
    Animal,
    Werecreature,
    Undead,
    Demon,
    Insect,
    Enchanted,
    Mystery,
}

/// The code of each monster kind.
pub open spec fn monster_kind_code(k: MonsterKind) -> u8 {
    match k {
        MonsterKind::Fighter => 0,
        MonsterKind::Mage => 1,
        MonsterKind::Priest => 2,
        MonsterKind::Thief => 3,
        MonsterKind::Midget => 4,
        MonsterKind::Giant => 5,
        MonsterKind::Myth => 6,
        MonsterKind::Dragon => 7,
        MonsterKind::Animal => 8,
        MonsterKind::Werecreature => 9,
        MonsterKind::Undead => 10,
        MonsterKind::Demon => 11,
        MonsterKind::Insect => 12,
        MonsterKind::Enchanted => 13,
        MonsterKind::Mystery => 14,
    }
}

/// The monster kind of a code, if the code table defines it.
pub open spec fn monster_kind_of_code(v: u8) -> Option<MonsterKind> {
    if v == 0 {
        Some(MonsterKind::Fighter)
    } else if v == 1 {
        Some(MonsterKind::Mage)
    } else if v == 2 {
        Some(MonsterKind::Priest)
    } else if v == 3 {
        Some(MonsterKind::Thief)
    } else if v == 4 {
        Some(MonsterKind::Midget)
    } else if v == 5 {
        Some(MonsterKind::Giant)
    } else if v == 6 {
        Some(MonsterKind::Myth)
    } else if v == 7 {
        Some(MonsterKind::Dragon)
    } else if v == 8 {
        Some(MonsterKind::Animal)
    } else if v == 9 {
        Some(MonsterKind::Werecreature)
    } else if v == 10 {
        Some(MonsterKind::Undead)
    } else if v == 11 {
        Some(MonsterKind::Demon)
    } else if v == 12 {
        Some(MonsterKind::Insect)
    } else if v == 13 {
        Some(MonsterKind::Enchanted)
    } else if v == 14 {
        Some(MonsterKind::Mystery)
    } else {
        None
    }
}

impl MonsterKind {
    /// The kind's code in the fixed code table.
    pub fn code(self) -> (r: u8)
        ensures
            r == monster_kind_code(self),
    {
        match self {
            MonsterKind::Fighter => 0,
            MonsterKind::Mage => 1,
            MonsterKind::Priest => 2,
            MonsterKind::Thief => 3,
            MonsterKind::Midget => 4,
            MonsterKind::Giant => 5,
            MonsterKind::Myth => 6,
            MonsterKind::Dragon => 7,
            MonsterKind::Animal => 8,
            MonsterKind::Werecreature => 9,
            MonsterKind::Undead => 10,
            MonsterKind::Demon => 11,
            MonsterKind::Insect => 12,
            MonsterKind::Enchanted => 13,
            MonsterKind::Mystery => 14,
        }
    }
}

/// The two directions of the monster code table invert each other.
pub proof fn lemma_monster_kind_code_round_trip(k: MonsterKind)
    ensures
        monster_kind_of_code(monster_kind_code(k)) == Some(k),
{
}

/// Decodes a monster-kind code.
pub fn monster_kind_from_code(v: u8) -> (r: Option<MonsterKind>)
    ensures
        r == monster_kind_of_code(v),
{
    if v == 0 {
        Some(MonsterKind::Fighter)
    } else if v == 1 {
        Some(MonsterKind::Mage)
    } else if v == 2 {
        Some(MonsterKind::Priest)
    } else if v == 3 {
        Some(MonsterKind::Thief)
    } else if v == 4 {
        Some(MonsterKind::Midget)
    } else if v == 5 {
        Some(MonsterKind::Giant)
    } else if v == 6 {
        Some(MonsterKind::Myth)
    } else if v == 7 {
        Some(MonsterKind::Dragon)
    } else if v == 8 {
        Some(MonsterKind::Animal)
    } else if v == 9 {
        Some(MonsterKind::Werecreature)
    } else if v == 10 {
        Some(MonsterKind::Undead)
    } else if v == 11 {
        Some(MonsterKind::Demon)
    } else if v == 12 {
        Some(MonsterKind::Insect)
    } else if v == 13 {
        Some(MonsterKind::Enchanted)
    } else if v == 14 {
        Some(MonsterKind::Mystery)
    } else {
        None
    }
}

/// A monster's follower spawn: an id expression and a probability.
#[derive(Debug)]
pub struct MonsterFollower {
    /// The follower's id expression, kept verbatim.
    pub id_expr: String,
    /// The spawn probability in percent.
    pub prob: u32,
}

/// The mathematical content of a [`MonsterFollower`].
pub struct MonsterFollowerV {
    pub id_expr: Seq<char>,
    pub prob: u32,
}

impl View for MonsterFollower {
    type V = MonsterFollowerV;

    open spec fn view(&self) -> MonsterFollowerV {
        MonsterFollowerV { id_expr: self.id_expr@, prob: self.prob }
    }
}

/// One monster, as the scenario defines it.
#[derive(Debug)]
pub struct Monster {
    /// The monster's position in the `Monster` run.
    pub id: u32,
    /// The identified singular name.
    pub name_ident: String,
    /// The unidentified singular name.
    pub name_unident: String,
    /// The identified plural name.
    pub name_plural_ident: String,
    /// The unidentified plural name.
    pub name_plural_unident: String,
    /// The monster kind.
    pub kind: MonsterKind,
    /// The level expression.
    pub xl_expr: String,
    /// The hit-point expression.
    pub hp_expr: String,
    /// The magic-point expression.
    pub mp_expr: String,
    /// The armor-class expression.
    pub ac_expr: String,
    /// The ordered stat values.
    pub stats: Vec<u32>,
    /// The damage expression.
    pub damage_expr: String,
    /// The attack-count expression.
    pub attack_count_expr: String,
    /// The debuffs the monster's attack inflicts.
    pub attack_debuff_mask: DebuffMask,
    /// The poison damage per turn.
    pub poison_damage: u32,
    /// How many levels an attack drains.
    pub drain_xl: u32,
    /// The spell level per realm.
    pub spell_levels: Vec<u32>,
    /// The healing rate.
    pub healing: i32,
    /// The resistance flag-set (remapped into generic ordering).
    pub resist_mask: ResistMask,
    /// The spell-cancel rate.
    pub spell_cancel: i32,
    /// The vulnerability flag-set (remapped into generic ordering).
    pub vuln_mask: ResistMask,
    /// Whether the monster can flee.
    pub can_flee: bool,
    /// Whether the monster can call allies.
    pub can_call: bool,
    /// The friendliness probability in percent.
    pub friendly_prob: u32,
    /// The group-count expression.
    pub count_in_group_expr: String,
    /// The follower spawn, if any.
    pub follower: Option<MonsterFollower>,
    /// The experience expression.
    pub xp_expr: String,
    /// Whether the monster is invincible.
    pub is_invincible: bool,
    /// Whether the monster attacks twice per round.
    pub attack_twice: bool,
    /// The description text.
    pub description: String,
    /// Whether the monster is hidden from the catalog.
    pub hide_in_catalog: bool,
}

/// The mathematical content of a [`Monster`].
pub struct MonsterV {
    pub id: u32,
    pub name_ident: Seq<char>,
    pub name_unident: Seq<char>,
    pub name_plural_ident: Seq<char>,
    pub name_plural_unident: Seq<char>,
    pub kind: MonsterKind,
    pub xl_expr: Seq<char>,
    pub hp_expr: Seq<char>,
    pub mp_expr: Seq<char>,
    pub ac_expr: Seq<char>,
    pub stats: Seq<u32>,
    pub damage_expr: Seq<char>,
    pub attack_count_expr: Seq<char>,
    pub attack_debuff_mask: DebuffMask,
    pub poison_damage: u32,
    pub drain_xl: u32,
    pub spell_levels: Seq<u32>,
    pub healing: i32,
    pub resist_mask: ResistMask,
    pub spell_cancel: i32,
    pub vuln_mask: ResistMask,
    pub can_flee: bool,
    pub can_call: bool,
    pub friendly_prob: u32,
    pub count_in_group_expr: Seq<char>,
    pub follower: Option<MonsterFollowerV>,
    pub xp_expr: Seq<char>,
    pub is_invincible: bool,
    pub attack_twice: bool,
    pub description: Seq<char>,
    pub hide_in_catalog: bool,
}

/// The view of an optional follower.
pub open spec fn follower_view(o: Option<MonsterFollower>) -> Option<MonsterFollowerV> {
    match o {
        Option::None => Option::None,
        Option::Some(f) => Option::Some(f@),
    }
}

impl View for Monster {
    type V = MonsterV;

    open spec fn view(&self) -> MonsterV {
        MonsterV {
            id: self.id,
            name_ident: self.name_ident@,
            name_unident: self.name_unident@,
            name_plural_ident: self.name_plural_ident@,
            name_plural_unident: self.name_plural_unident@,
            kind: self.kind,
            xl_expr: self.xl_expr@,
            hp_expr: self.hp_expr@,
            mp_expr: self.mp_expr@,
            ac_expr: self.ac_expr@,
            stats: self.stats@,
            damage_expr: self.damage_expr@,
            attack_count_expr: self.attack_count_expr@,
            attack_debuff_mask: self.attack_debuff_mask,
            poison_damage: self.poison_damage,
            drain_xl: self.drain_xl,
            spell_levels: self.spell_levels@,
            healing: self.healing,
            resist_mask: self.resist_mask,
            spell_cancel: self.spell_cancel,
            vuln_mask: self.vuln_mask,
            can_flee: self.can_flee,
            can_call: self.can_call,
            friendly_prob: self.friendly_prob,
            count_in_group_expr: self.count_in_group_expr@,
            follower: follower_view(self.follower),
            xp_expr: self.xp_expr@,
            is_invincible: self.is_invincible,
            attack_twice: self.attack_twice,
            description: self.description@,
            hide_in_catalog: self.hide_in_catalog,
        }
    }
}

impl DeepView for Monster {
    type V = MonsterV;

    open spec fn deep_view(&self) -> MonsterV {
        self.view()
    }
}

// ----------------------------------------------------------------------
// monster-specific flag decoders
// ----------------------------------------------------------------------

/// Every raw bit the monster resistance schema defines: positions 0-12,
/// one per remapping-table entry.
pub const MONSTER_RESIST_RAW_BITS: u32 = 0x1fff;

/// The fixed 13-entry remapping from the monster schema's bit ordering
/// into the generic resistance flags.
pub open spec fn remap_resist_bits(raw: u32) -> u32 {
    (if raw & 0x1 != 0 {
        RESIST_SLEEP
    } else {
        0
    }) | (if raw & 0x2 != 0 {
        RESIST_KNOCKOUT
    } else {
        0
    }) | (if raw & 0x4 != 0 {
        RESIST_CRITICAL
    } else {
        0
    }) | (if raw & 0x8 != 0 {
        RESIST_DEATH
    } else {
        0
    }) | (if raw & 0x10 != 0 {
        RESIST_FIRE
    } else {
        0
    }) | (if raw & 0x20 != 0 {
        RESIST_COLD
    } else {
        0
    }) | (if raw & 0x40 != 0 {
        RESIST_ELECTRIC
    } else {
        0
    }) | (if raw & 0x80 != 0 {
        RESIST_HOLY
    } else {
        0
    }) | (if raw & 0x100 != 0 {
        RESIST_GENERIC
    } else {
        0
    }) | (if raw & 0x200 != 0 {
        RESIST_SILENCE
    } else {
        0
    }) | (if raw & 0x400 != 0 {
        RESIST_POISON
    } else {
        0
    }) | (if raw & 0x800 != 0 {
        RESIST_PARALYSIS
    } else {
        0
    }) | (if raw & 0x1000 != 0 {
        RESIST_PETRIFICATION
    } else {
        0
    })
}

/// What a monster resistance/vulnerability field yields: the hexadecimal
/// digit scan, validated against the remapping table's 13 raw bits and
/// then remapped into the generic ordering; a raw bit outside the table
/// is a hard failure.
pub open spec fn monster_resist_spec(s: Seq<char>) -> Result<ResistMask, FieldError> {
    if !hex_scan_ok(s) {
        Err(FieldError::Number)
    } else if hex_bits(s) & MONSTER_RESIST_RAW_BITS != hex_bits(s) {
        Err(FieldError::UnknownFlagBit { bits: hex_bits(s) })
    } else {
        Ok(ResistMask { bits: remap_resist_bits(hex_bits(s)) })
    }
}

fn parse_monster_resist_chars(s: &[char]) -> (r: Result<ResistMask, FieldError>)
    ensures
        r == monster_resist_spec(s@),
{
    let raw = match scan_hex_bits(s) {
        Some(bits) => bits,
        None => {
            return Err(FieldError::Number);
        },
    };
    if raw & MONSTER_RESIST_RAW_BITS != raw {
        return Err(FieldError::UnknownFlagBit { bits: raw });
    }
    let bits = (if raw & 0x1 != 0 {
        RESIST_SLEEP
    } else {
        0
    }) | (if raw & 0x2 != 0 {
        RESIST_KNOCKOUT
    } else {
        0
    }) | (if raw & 0x4 != 0 {
        RESIST_CRITICAL
    } else {
        0
    }) | (if raw & 0x8 != 0 {
        RESIST_DEATH
    } else {
        0
    }) | (if raw & 0x10 != 0 {
        RESIST_FIRE
    } else {
        0
    }) | (if raw & 0x20 != 0 {
        RESIST_COLD
    } else {
        0
    }) | (if raw & 0x40 != 0 {
        RESIST_ELECTRIC
    } else {
        0
    }) | (if raw & 0x80 != 0 {
        RESIST_HOLY
    } else {
        0
    }) | (if raw & 0x100 != 0 {
        RESIST_GENERIC
    } else {
        0
    }) | (if raw & 0x200 != 0 {
        RESIST_SILENCE
    } else {
        0
    }) | (if raw & 0x400 != 0 {
        RESIST_POISON
    } else {
        0
    }) | (if raw & 0x800 != 0 {
        RESIST_PARALYSIS
    } else {
        0
    }) | (if raw & 0x1000 != 0 {
        RESIST_PETRIFICATION
    } else {
        0
    });
    Ok(ResistMask { bits })
}

/// Decodes a monster resistance/vulnerability field, remapping the
/// monster schema's bit ordering through its fixed table.
pub fn parse_resist_mask(s: &str) -> (r: Result<ResistMask, FieldError>)
    ensures
        r == monster_resist_spec(s@),
{
    let chars = chars_of(s);
    parse_monster_resist_chars(chars.as_slice())
}

/// What a monster attack-debuff field yields: the decimal digit scan,
/// validated against the debuff mask's defined bits.
pub open spec fn monster_debuff_spec(s: Seq<char>) -> Result<DebuffMask, FieldError> {
    if !dec_scan_ok(s) {
        Err(FieldError::Number)
    } else if dec_bits(s) & DEBUFF_VALID_BITS != dec_bits(s) {
        Err(FieldError::UnknownFlagBit { bits: dec_bits(s) })
    } else {
        Ok(DebuffMask { bits: dec_bits(s) })
    }
}

fn parse_monster_debuff_chars(s: &[char]) -> (r: Result<DebuffMask, FieldError>)
    ensures
        r == monster_debuff_spec(s@),
{
    let bits = match scan_dec_bits(s) {
        Some(bits) => bits,
        None => {
            return Err(FieldError::Number);
        },
    };
    match DebuffMask::from_bits(bits) {
        Some(m) => Ok(m),
        None => Err(FieldError::UnknownFlagBit { bits }),
    }
}

/// Decodes a monster attack-debuff field.
pub fn parse_attack_debuff_mask(s: &str) -> (r: Result<DebuffMask, FieldError>)
    ensures
        r == monster_debuff_spec(s@),
{
    let chars = chars_of(s);
    parse_monster_debuff_chars(chars.as_slice())
}

// ----------------------------------------------------------------------
// the follower
// ----------------------------------------------------------------------

/// What the follower fields yield: an empty id expression means no
/// follower; an empty probability defaults to 50, else it must parse.
pub open spec fn follower_spec(s_id: Seq<char>, s_prob: Seq<char>) -> Result<
    Option<MonsterFollowerV>,
    FieldError,
> {
    if s_id.len() == 0 {
        Ok(Option::None)
    } else if s_prob.len() == 0 {
        Ok(Option::Some(MonsterFollowerV { id_expr: s_id, prob: 50 }))
    } else {
        match parse_u32_spec(s_prob) {
            Option::None => Err(FieldError::Number),
            Option::Some(p) => Ok(Option::Some(MonsterFollowerV { id_expr: s_id, prob: p })),
        }
    }
}

fn parse_follower_chars(s_id: &[char], s_prob: &[char]) -> (r: Result<
    Option<MonsterFollower>,
    FieldError,
>)
    ensures
        match r {
            Ok(o) => follower_spec(s_id@, s_prob@) == Ok::<Option<MonsterFollowerV>, FieldError>(
                follower_view(o),
            ),
            Err(e) => follower_spec(s_id@, s_prob@) == Err::<Option<MonsterFollowerV>, FieldError>(
                e,
            ),
        },
{
    if s_id.len() == 0 {
        return Ok(Option::None);
    }
    let prob: u32 = if s_prob.len() == 0 {
        50
    } else {
        match parse_u32_chars(s_prob) {
            Some(p) => p,
            None => {
                return Err(FieldError::Number);
            },
        }
    };
    Ok(Option::Some(MonsterFollower { id_expr: string_from_chars(s_id), prob }))
}

/// Decodes the follower fields (the id expression and its probability).
pub fn parse_follower(s_id: &str, s_prob: &str) -> (r: Result<Option<MonsterFollower>, FieldError>)
    ensures
        match r {
            Ok(o) => follower_spec(s_id@, s_prob@) == Ok::<Option<MonsterFollowerV>, FieldError>(
                follower_view(o),
            ),
            Err(e) => follower_spec(s_id@, s_prob@) == Err::<Option<MonsterFollowerV>, FieldError>(
                e,
            ),
        },
{
    let ci = chars_of(s_id);
    let cp = chars_of(s_prob);
    parse_follower_chars(ci.as_slice(), cp.as_slice())
}

// ----------------------------------------------------------------------
// the record decoder
// ----------------------------------------------------------------------

/// What the monster-kind field yields.
pub open spec fn monster_kind_spec(s: Seq<char>) -> Result<MonsterKind, FieldError> {
    match parse_u8_spec(s) {
        Option::None => Err(FieldError::Number),
        Option::Some(v) => match monster_kind_of_code(v) {
            Option::None => Err(FieldError::UnknownEnum { value: v }),
            Option::Some(k) => Ok(k),
        },
    }
}

fn parse_monster_kind_chars(s: &[char]) -> (r: Result<MonsterKind, FieldError>)
    ensures
        r == monster_kind_spec(s@),
{
    match parse_u8_chars(s) {
        Option::None => Err(FieldError::Number),
        Option::Some(v) => match monster_kind_from_code(v) {
            Option::None => Err(FieldError::UnknownEnum { value: v }),
            Option::Some(k) => Ok(k),
        },
    }
}

/// What decoding one monster record yields: at least 49 `<>`-delimited
/// fields (the trailing ones reserved), converted in the source order
/// (kind 4, stats 10, debuff 19, poison 14, drain 15, spell levels 18,
/// healing 16, resistance 22, spell cancel 17, vulnerability 23, flags
/// 25 and 24, friendliness 26, follower 29/28, flags 39 and 40, catalog
/// flag 48), the first failing field deciding the error.
pub open spec fn monster_spec(id: u32, text: Seq<char>) -> Result<MonsterV, FieldError> {
    let fs = angle_fields(text);
    if fs.len() < 49 {
        Err(FieldError::Arity { expected: 49, actual: fs.len() as u64 })
    } else if monster_kind_spec(fs[4]) is Err {
        Err(monster_kind_spec(fs[4])->Err_0)
    } else if !u32_list_ok(fs[10]) {
        Err(FieldError::Number)
    } else if monster_debuff_spec(fs[19]) is Err {
        Err(monster_debuff_spec(fs[19])->Err_0)
    } else if !(parse_u32_spec(fs[14]) is Some && parse_u32_spec(fs[15]) is Some) {
        Err(FieldError::Number)
    } else if !u32_list_ok(fs[18]) {
        Err(FieldError::Number)
    } else if parse_i32_spec(fs[16]) is None {
        Err(FieldError::Number)
    } else if monster_resist_spec(fs[22]) is Err {
        Err(monster_resist_spec(fs[22])->Err_0)
    } else if parse_i32_spec(fs[17]) is None {
        Err(FieldError::Number)
    } else if monster_resist_spec(fs[23]) is Err {
        Err(monster_resist_spec(fs[23])->Err_0)
    } else if !(parse_bool_spec(fs[25]) is Some && parse_bool_spec(fs[24]) is Some
        && parse_u32_spec(fs[26]) is Some) {
        Err(FieldError::Number)
    } else if follower_spec(fs[29], fs[28]) is Err {
        Err(follower_spec(fs[29], fs[28])->Err_0)
    } else if !(parse_bool_spec(fs[39]) is Some && parse_bool_spec(fs[40]) is Some
        && parse_bool_spec(fs[48]) is Some) {
        Err(FieldError::Number)
    } else {
        Ok(
            MonsterV {
                id,
                name_ident: fs[0],
                name_unident: fs[1],
                name_plural_ident: fs[2],
                name_plural_unident: fs[3],
                kind: monster_kind_spec(fs[4])->Ok_0,
                xl_expr: fs[5],
                hp_expr: fs[7],
                mp_expr: fs[8],
                ac_expr: fs[9],
                stats: u32_list_val(fs[10]),
                damage_expr: fs[12],
                attack_count_expr: fs[13],
                attack_debuff_mask: monster_debuff_spec(fs[19])->Ok_0,
                poison_damage: parse_u32_spec(fs[14])->0,
                drain_xl: parse_u32_spec(fs[15])->0,
                spell_levels: u32_list_val(fs[18]),
                healing: parse_i32_spec(fs[16])->0,
                resist_mask: monster_resist_spec(fs[22])->Ok_0,
                spell_cancel: parse_i32_spec(fs[17])->0,
                vuln_mask: monster_resist_spec(fs[23])->Ok_0,
                can_flee: parse_bool_spec(fs[25])->0,
                can_call: parse_bool_spec(fs[24])->0,
                friendly_prob: parse_u32_spec(fs[26])->0,
                count_in_group_expr: fs[27],
                follower: follower_spec(fs[29], fs[28])->Ok_0,
                xp_expr: fs[6],
                is_invincible: parse_bool_spec(fs[39])->0,
                attack_twice: parse_bool_spec(fs[40])->0,
                description: fs[45],
                hide_in_catalog: parse_bool_spec(fs[48])->0,
            },
        )
    }
}

/// Decodes one monster record.
#[verifier::rlimit(100)]
pub fn parse(id: u32, text: &str) -> (r: Result<Monster, FieldError>)
    ensures
        match r {
            Ok(mn) => monster_spec(id, text@) == Ok::<MonsterV, FieldError>(mn@),
            Err(e) => monster_spec(id, text@) == Err::<MonsterV, FieldError>(e),
        },
{
    let chars = chars_of(text);
    proof {
        reveal_strlit("<>");
        assert("<>"@ =~= seq!['<', '>']);
    }
    let fields = split_str(chars.as_slice(), "<>");
    if fields.len() < 49 {
        return Err(FieldError::Arity { expected: 49, actual: fields.len() as u64 });
    }
    let kind = match parse_monster_kind_chars(fields[4].as_slice()) {
        Ok(k) => k,
        Err(e) => {
            return Err(e);
        },
    };
    let stats = match parse_u32_list(fields[10].as_slice()) {
        Some(v) => v,
        None => {
            return Err(FieldError::Number);
        },
    };
    let attack_debuff_mask = match parse_monster_debuff_chars(fields[19].as_slice()) {
        Ok(m) => m,
        Err(e) => {
            return Err(e);
        },
    };
    let poison_damage = match parse_u32_chars(fields[14].as_slice()) {
        Some(v) => v,
        None => {
            return Err(FieldError::Number);
        },
    };
    let drain_xl = match parse_u32_chars(fields[15].as_slice()) {
        Some(v) => v,
        None => {
            return Err(FieldError::Number);
        },
    };
    let spell_levels = match parse_u32_list(fields[18].as_slice()) {
        Some(v) => v,
        None => {
            return Err(FieldError::Number);
        },
    };
    let healing = match parse_i32_chars(fields[16].as_slice()) {
        Some(v) => v,
        None => {
            return Err(FieldError::Number);
        },
    };
    let resist_mask = match parse_monster_resist_chars(fields[22].as_slice()) {
        Ok(m) => m,
        Err(e) => {
            return Err(e);
        },
    };
    let spell_cancel = match parse_i32_chars(fields[17].as_slice()) {
        Some(v) => v,
        None => {
            return Err(FieldError::Number);
        },
    };
    let vuln_mask = match parse_monster_resist_chars(fields[23].as_slice()) {
        Ok(m) => m,
        Err(e) => {
            return Err(e);
        },
    };
    let can_flee = match parse_bool_chars(fields[25].as_slice()) {
        Some(v) => v,
        None => {
            return Err(FieldError::Number);
        },
    };
    let can_call = match parse_bool_chars(fields[24].as_slice()) {
        Some(v) => v,
        None => {
            return Err(FieldError::Number);
        },
    };
    let friendly_prob = match parse_u32_chars(fields[26].as_slice()) {
        Some(v) => v,
        None => {
            return Err(FieldError::Number);
        },
    };
    let follower = match parse_follower_chars(fields[29].as_slice(), fields[28].as_slice()) {
        Ok(o) => o,
        Err(e) => {
            return Err(e);
        },
    };
    let is_invincible = match parse_bool_chars(fields[39].as_slice()) {
        Some(v) => v,
        None => {
            return Err(FieldError::Number);
        },
    };
    let attack_twice = match parse_bool_chars(fields[40].as_slice()) {
        Some(v) => v,
        None => {
            return Err(FieldError::Number);
        },
    };
    let hide_in_catalog = match parse_bool_chars(fields[48].as_slice()) {
        Some(v) => v,
        None => {
            return Err(FieldError::Number);
        },
    };
    let mn = Monster {
        id,
        name_ident: string_from_chars(fields[0].as_slice()),
        name_unident: string_from_chars(fields[1].as_slice()),
        name_plural_ident: string_from_chars(fields[2].as_slice()),
        name_plural_unident: string_from_chars(fields[3].as_slice()),
        kind,
        xl_expr: string_from_chars(fields[5].as_slice()),
        hp_expr: string_from_chars(fields[7].as_slice()),
        mp_expr: string_from_chars(fields[8].as_slice()),
        ac_expr: string_from_chars(fields[9].as_slice()),
        stats,
        damage_expr: string_from_chars(fields[12].as_slice()),
        attack_count_expr: string_from_chars(fields[13].as_slice()),
        attack_debuff_mask,
        poison_damage,
        drain_xl,
        spell_levels,
        healing,
        resist_mask,
        spell_cancel,
        vuln_mask,
        can_flee,
        can_call,
        friendly_prob,
        count_in_group_expr: string_from_chars(fields[27].as_slice()),
        follower,
        xp_expr: string_from_chars(fields[6].as_slice()),
        is_invincible,
        attack_twice,
        description: string_from_chars(fields[45].as_slice()),
        hide_in_catalog,
    };
    proof {
        assert(mn@ == monster_spec(id, text@)->Ok_0);
    }
    Ok(mn)
}

/// The views of a monster sequence.
pub open spec fn monster_views(v: Seq<Monster>) -> Seq<MonsterV> {
    v.map_values(|mn: Monster| mn@)
}

/// The `Monster` key prefix.
pub open spec fn monster_prefix() -> Seq<char> {
    seq!['M', 'o', 'n', 's', 't', 'e', 'r']
}

/// A successful monster run: `v` holds the decodings of `Monster0`,
/// `Monster1`, ... up to the first absent index.
pub open spec fn monsters_run_ok(m: Map<Seq<char>, Seq<char>>, v: Seq<MonsterV>) -> bool {
    &&& forall|j: int|
        0 <= j < v.len() ==> m.contains_key(#[trigger] seq_key(monster_prefix(), j))
            && monster_spec(j as u32, m[seq_key(monster_prefix(), j)]) == Ok::<MonsterV, FieldError>(
            v[j],
        )
    &&& !m.contains_key(seq_key(monster_prefix(), v.len() as int))
}

/// Entities before `id` decode, and entity `id` is the first to fail,
/// its error wrapped with the entity kind and id.
pub open spec fn monsters_run_err_at(m: Map<Seq<char>, Seq<char>>, e: LoadError, id: int) -> bool {
    &&& 0 <= id <= u32::MAX
    &&& m.contains_key(seq_key(monster_prefix(), id))
    &&& forall|j: int|
        0 <= j < id ==> m.contains_key(#[trigger] seq_key(monster_prefix(), j)) && monster_spec(
            j as u32,
            m[seq_key(monster_prefix(), j)],
        ) is Ok
    &&& monster_spec(id as u32, m[seq_key(monster_prefix(), id)]) matches Err(fe) && e
        == LoadError::Entity { kind: EntityKind::Monster, id: id as u32, err: fe }
}

/// A failed run: some entity is the first to fail.
pub open spec fn monsters_run_err(m: Map<Seq<char>, Seq<char>>, e: LoadError) -> bool {
    exists|id: int| #[trigger] monsters_run_err_at(m, e, id)
}

/// Decodes the whole monster sequence, stopping at the first absent
/// index and aborting on the first malformed record.
pub fn monsters_from_kvs(kvs: &Kvs) -> (r: Result<Vec<Monster>, LoadError>)
    requires
        kvs.wf(),
        kvs@.dom().len() <= u32::MAX as nat,
    ensures
        match r {
            Ok(v) => monsters_run_ok(kvs@, monster_views(v@)),
            Err(e) => monsters_run_err(kvs@, e),
        },
{
    let texts = kvs.iter_seq("Monster");
    proof {
        reveal_strlit("Monster");
        assert("Monster"@ =~= monster_prefix());
        kvs.lemma_dom_finite();
        lemma_run_bound(kvs@, monster_prefix(), texts@.len() as int);
    }
    let n = texts.len();
    let mut out: Vec<Monster> = Vec::new();
    let mut i: usize = 0;
    while i < n
        invariant
            0 <= i <= n == texts@.len(),
            n <= u32::MAX,
            i == out@.len(),
            forall|j: int|
                0 <= j < n ==> kvs@.contains_key(#[trigger] seq_key(monster_prefix(), j))
                    && texts@[j]@ == kvs@[seq_key(monster_prefix(), j)],
            !kvs@.contains_key(seq_key(monster_prefix(), n as int)),
            forall|j: int|
                0 <= j < i ==> monster_spec(j as u32, kvs@[#[trigger] seq_key(monster_prefix(), j)])
                    == Ok::<MonsterV, FieldError>(out@[j]@),
        decreases n - i,
    {
        let id = i as u32;
        match parse(id, texts[i].as_str()) {
            Ok(mn) => {
                out.push(mn);
            },
            Err(fe) => {
                let e = LoadError::Entity { kind: EntityKind::Monster, id, err: fe };
                proof {
                    let w = i as int;
                    assert(monster_spec(w as u32, kvs@[seq_key(monster_prefix(), w)]) matches Err(f2)
                        && f2 == fe);
                    assert(monsters_run_err_at(kvs@, e, w));
                }
                return Err(e);
            },
        }
        i = i + 1;
    }
    proof {
        assert(monster_views(out@).len() == out@.len());
        assert(forall|j: int|
            0 <= j < out@.len() ==> monster_views(out@)[j] == #[trigger] out@[j]@);
    }
    Ok(out)
}

} // verus!
