//! Items: the `Item` entity sequence.
//!
//! Items carry the richest schema: equip-eligibility masks with a
//! structured `name[N]` token sub-grammar, curse masks, damage
//! expressions, flag-sets and an optional broken-into item reference.
//! Several field indices are reserved by the format and left unparsed.

use crate::error::EntityKind;
use crate::error::FieldError;
use crate::error::LoadError;
use crate::kvs::lemma_run_bound;
use crate::kvs::seq_key;
use crate::kvs::Kvs;
use crate::masks::DebuffMask;
use crate::masks::MonsterKindMask;
use crate::masks::ResistMask;
use crate::masks::DEBUFF_CRITICAL;
use crate::masks::DEBUFF_KNOCKOUT;
use crate::masks::DEBUFF_PARALYSIS;
use crate::masks::DEBUFF_PETRIFICATION;
use crate::masks::DEBUFF_SLEEP;
use crate::text::all_dec_digits;
use crate::text::chars_of;
use crate::text::comma_fields;
use crate::text::copy_range;
use crate::text::dec_digits_val;
use crate::text::is_dec_digit;
use crate::text::parse_bool_chars;
use crate::text::parse_bool_spec;
use crate::text::parse_i32_chars;
use crate::text::parse_i32_list;
use crate::text::parse_i32_spec;
use crate::text::parse_u32_chars;
use crate::text::parse_u32_spec;
use crate::text::parse_u64_chars;
use crate::text::parse_u64_spec;
use crate::text::parse_u8_chars;
use crate::text::parse_u8_spec;
use crate::text::i32_list_ok;
use crate::text::i32_list_val;
use crate::text::split_spec;
use crate::text::split_str;
use crate::text::string_from_chars;
use crate::text::angle_fields;
use crate::util::limited_mask_spec;
use crate::util::monster_kind_mask_spec;
use crate::util::parse_limited_mask;
use crate::util::parse_monster_kind_mask_chars;
use crate::util::parse_resist_mask_chars;
use crate::util::resist_mask_spec;
use vstd::prelude::*;

verus! {

/// The kind of an item, from its fixed code table.
#[derive(Clone, Copy, Debug, PartialEq, Eq, Hash, Structural)]
pub enum ItemKind {
    Weapon,
    Armor,
    Shield,
    Helmet,
    Gloves,
    Boots,
    Tool,
}

/// The code of each item kind.
pub open spec fn item_kind_code(k: ItemKind) -> u8 {
    match k {
        ItemKind::Weapon => 0,
        ItemKind::Armor => 1,
        ItemKind::Shield => 2,
        ItemKind::Helmet => 3,
        ItemKind::Gloves => 4,
        ItemKind::Boots => 5,
        ItemKind::Tool => 6,
    }
}

/// The item kind of a code, if the code table defines it.
pub open spec fn item_kind_of_code(v: u8) -> Option<ItemKind> {
    if v == 0 {
        Some(ItemKind::Weapon)
    } else if v == 1 {
        Some(ItemKind::Armor)
    } else if v == 2 {
        Some(ItemKind::Shield)
    } else if v == 3 {
        Some(ItemKind::Helmet)
    } else if v == 4 {
        Some(ItemKind::Gloves)
    } else if v == 5 {
        Some(ItemKind::Boots)
    } else if v == 6 {
        Some(ItemKind::Tool)
    } else {
        None
    }
}

impl ItemKind {
    /// The kind's code in the fixed code table.
    pub fn code(self) -> (r: u8)
        ensures
            r == item_kind_code(self),
    {
        match self {
            ItemKind::Weapon => 0,
            ItemKind::Armor => 1,
            ItemKind::Shield => 2,
            ItemKind::Helmet => 3,
            ItemKind::Gloves => 4,
            ItemKind::Boots => 5,
            ItemKind::Tool => 6,
        }
    }
}

/// The two directions of the item code table invert each other.
pub proof fn lemma_item_kind_code_round_trip(k: ItemKind)
    ensures
        item_kind_of_code(item_kind_code(k)) == Some(k),
{
}

/// Decodes an item-kind code.
pub fn item_kind_from_code(v: u8) -> (r: Option<ItemKind>)
    ensures
        r == item_kind_of_code(v),
{
    if v == 0 {
        Some(ItemKind::Weapon)
    } else if v == 1 {
        Some(ItemKind::Armor)
    } else if v == 2 {
        Some(ItemKind::Shield)
    } else if v == 3 {
        Some(ItemKind::Helmet)
    } else if v == 4 {
        Some(ItemKind::Gloves)
    } else if v == 5 {
        Some(ItemKind::Boots)
    } else if v == 6 {
        Some(ItemKind::Tool)
    } else {
        None
    }
}

/// One item, as the scenario defines it.
#[derive(Debug)]
pub struct Item {
    /// The item's position in the `Item` run.
    pub id: u32,
    /// The identified display name.
    pub name_ident: String,
    /// The unidentified display name.
    pub name_unident: String,
    /// The item kind.
    pub kind: ItemKind,
    /// The price.
    pub price: u64,
    /// The shop stock count.
    pub stock: i32,
    /// Which classes may equip the item (positional 64-bit set).
    pub equip_class_mask: u64,
    /// Which races may equip the item (positional 64-bit set).
    pub equip_race_mask: u64,
    /// Which alignments the curse binds (bit per alignment).
    pub curse_alignment_mask: u8,
    /// Which sexes the curse binds (bit per sex).
    pub curse_sex_mask: u8,
    /// The armor-class modifier.
    pub ac: i32,
    /// The armor-class modifier while cursed.
    pub ac_curse: i32,
    /// The damage expression triple.
    pub damage_expr: [String; 3],
    /// The hit modifier.
    pub hit_modifier: i32,
    /// The attack-count modifier.
    pub attack_count_modifier: i32,
    /// The debuff the item's attack inflicts.
    pub attack_debuff_mask: DebuffMask,
    /// The healing rate.
    pub healing: i32,
    /// The resistance flag-set.
    pub resist_mask: ResistMask,
    /// The spell-cancel rate.
    pub spell_cancel: i32,
    /// The monster kinds the item slays.
    pub slay_mask: MonsterKindMask,
    /// The monster kinds the item protects against.
    pub protect_mask: MonsterKindMask,
    /// The use-effect text, kept verbatim.
    pub use_str: String,
    /// The SP text, kept verbatim.
    pub sp_str: String,
    /// The break-probability expression.
    pub break_prob_expr: String,
    /// The id of the item this one breaks into, if any.
    pub broken_item_id: Option<u32>,
    /// The description text.
    pub description: String,
    /// The identify difficulty.
    pub ident_difficulty: u32,
    /// How many targets one attack hits.
    pub attack_target_count: u32,
    /// Whether use is gated on equip eligibility.
    pub usable_only_if_equipable: bool,
    /// Whether the effect applies only while equipped.
    pub effect_only_if_equiped: bool,
    /// Whether the class attack debuff is disabled while equipped.
    pub disable_class_attack_debuff_if_equiped: bool,
    /// Whether the class armor class is disabled while equipped.
    pub disable_class_ac_if_equiped: bool,
    /// The per-stat bonus values.
    pub stats_bonus: Vec<i32>,
    /// Whether the attack count is halved in the off hand.
    pub halve_attack_count_if_subweapon: bool,
    /// The poison damage per turn.
    pub poison_damage: u32,
    /// Whether the effect is gated on equip eligibility.
    pub effect_only_if_equipable: bool,
    /// Whether the item is hidden from the catalog.
    pub hide_in_catalog: bool,
}

/// The mathematical content of an [`Item`].
pub struct ItemV {
    pub id: u32,
    pub name_ident: Seq<char>,
    pub name_unident: Seq<char>,
    pub kind: ItemKind,
    pub price: u64,
    pub stock: i32,
    pub equip_class_mask: u64,
    pub equip_race_mask: u64,
    pub curse_alignment_mask: u8,
    pub curse_sex_mask: u8,
    pub ac: i32,
    pub ac_curse: i32,
    pub damage_expr: Seq<Seq<char>>,
    pub hit_modifier: i32,
    pub attack_count_modifier: i32,
    pub attack_debuff_mask: DebuffMask,
    pub healing: i32,
    pub resist_mask: ResistMask,
    pub spell_cancel: i32,
    pub slay_mask: MonsterKindMask,
    pub protect_mask: MonsterKindMask,
    pub use_str: Seq<char>,
    pub sp_str: Seq<char>,
    pub break_prob_expr: Seq<char>,
    pub broken_item_id: Option<u32>,
    pub description: Seq<char>,
    pub ident_difficulty: u32,
    pub attack_target_count: u32,
    pub usable_only_if_equipable: bool,
    pub effect_only_if_equiped: bool,
    pub disable_class_attack_debuff_if_equiped: bool,
    pub disable_class_ac_if_equiped: bool,
    pub stats_bonus: Seq<i32>,
    pub halve_attack_count_if_subweapon: bool,
    pub poison_damage: u32,
    pub effect_only_if_equipable: bool,
    pub hide_in_catalog: bool,
}

impl View for Item {
    type V = ItemV;

    open spec fn view(&self) -> ItemV {
        ItemV {
            id: self.id,
            name_ident: self.name_ident@,
            name_unident: self.name_unident@,
            kind: self.kind,
            price: self.price,
            stock: self.stock,
            equip_class_mask: self.equip_class_mask,
            equip_race_mask: self.equip_race_mask,
            curse_alignment_mask: self.curse_alignment_mask,
            curse_sex_mask: self.curse_sex_mask,
            ac: self.ac,
            ac_curse: self.ac_curse,
            damage_expr: Seq::new(3, |i: int| self.damage_expr@[i]@),
            hit_modifier: self.hit_modifier,
            attack_count_modifier: self.attack_count_modifier,
            attack_debuff_mask: self.attack_debuff_mask,
            healing: self.healing,
            resist_mask: self.resist_mask,
            spell_cancel: self.spell_cancel,
            slay_mask: self.slay_mask,
            protect_mask: self.protect_mask,
            use_str: self.use_str@,
            sp_str: self.sp_str@,
            break_prob_expr: self.break_prob_expr@,
            broken_item_id: self.broken_item_id,
            description: self.description@,
            ident_difficulty: self.ident_difficulty,
            attack_target_count: self.attack_target_count,
            usable_only_if_equipable: self.usable_only_if_equipable,
            effect_only_if_equiped: self.effect_only_if_equiped,
            disable_class_attack_debuff_if_equiped: self.disable_class_attack_debuff_if_equiped,
            disable_class_ac_if_equiped: self.disable_class_ac_if_equiped,
            stats_bonus: self.stats_bonus@,
            halve_attack_count_if_subweapon: self.halve_attack_count_if_subweapon,
            poison_damage: self.poison_damage,
            effect_only_if_equipable: self.effect_only_if_equipable,
            hide_in_catalog: self.hide_in_catalog,
        }
    }
}

impl DeepView for Item {
    type V = ItemV;

    open spec fn deep_view(&self) -> ItemV {
        self.view()
    }
}

// ----------------------------------------------------------------------
// the `name[N]` token sub-grammar
// ----------------------------------------------------------------------

/// What one `name[N]` token yields: the token must be exactly the given
/// name, `[`, one or more decimal digits, `]`; a shape mismatch is a
/// `BadMaskToken`, a digit run overflowing `u32` a `Number` error.
pub open spec fn bracket_token_spec(tok: Seq<char>, name: Seq<char>) -> Result<u32, FieldError> {
    if !(tok.len() >= name.len() + 3 && tok.take(name.len() as int) == name && tok[name.len() as int]
        == '[' && tok.last() == ']') {
        Err(FieldError::BadMaskToken)
    } else {
        let digits = tok.subrange(name.len() as int + 1, tok.len() as int - 1);
        if !all_dec_digits(digits) {
            Err(FieldError::BadMaskToken)
        } else if dec_digits_val(digits) > u32::MAX {
            Err(FieldError::Number)
        } else {
            Ok(dec_digits_val(digits) as u32)
        }
    }
}

/// Parses one `name[N]` token.
fn parse_bracket_token(tok: &[char], name: &[char]) -> (r: Result<u32, FieldError>)
    requires
        name@.len() <= 8,
    ensures
        r == bracket_token_spec(tok@, name@),
{
    let nl = name.len();
    let tl = tok.len();
    if tl < nl + 3 {
        return Err(FieldError::BadMaskToken);
    }
    let mut i: usize = 0;
    while i < nl
        invariant
            0 <= i <= nl == name@.len(),
            tl == tok@.len(),
            tl >= nl + 3,
            forall|j: int| 0 <= j < i ==> tok@[j] == name@[j],
        decreases nl - i,
    {
        if tok[i] != name[i] {
            proof {
                assert(tok@.take(nl as int)[i as int] != name@[i as int]);
            }
            return Err(FieldError::BadMaskToken);
        }
        i = i + 1;
    }
    proof {
        assert(tok@.take(nl as int) =~= name@);
    }
    if tok[nl] != '[' {
        return Err(FieldError::BadMaskToken);
    }
    if tok[tl - 1] != ']' {
        return Err(FieldError::BadMaskToken);
    }
    let digits = copy_range(tok, nl + 1, tl - 1);
    let ghost dview = tok@.subrange(nl + 1, tl - 1);
    let dn = digits.len();
    let mut k: usize = 0;
    while k < dn
        invariant
            0 <= k <= dn == digits@.len(),
            nl == name@.len(),
            tl == tok@.len(),
            tl >= nl + 3,
            tok@.take(nl as int) == name@,
            tok@[nl as int] == '[',
            tok@.last() == ']',
            digits@ == dview,
            dview == tok@.subrange(nl as int + 1, tl as int - 1),
            forall|j: int| 0 <= j < k ==> is_dec_digit(digits@[j]),
        decreases dn - k,
    {
        match crate::text::dec_digit(digits[k]) {
            Some(_) => {},
            None => {
                proof {
                    assert(!is_dec_digit(dview[k as int]));
                }
                return Err(FieldError::BadMaskToken);
            },
        }
        k = k + 1;
    }
    match parse_u32_chars(digits.as_slice()) {
        Some(v) => {
            proof {
                assert(crate::text::unsigned_digits(dview) =~= dview);
            }
            Ok(v)
        },
        None => {
            proof {
                assert(crate::text::unsigned_digits(dview) =~= dview);
                assert(dview.len() >= 1 && all_dec_digits(dview));
            }
            Err(FieldError::Number)
        },
    }
}

/// The `class` token name.
pub open spec fn class_token() -> Seq<char> {
    seq!['c', 'l', 'a', 's', 's']
}

/// The `race` token name.
pub open spec fn race_token() -> Seq<char> {
    seq!['r', 'a', 'c', 'e']
}

/// The `item` token name.
pub open spec fn item_token() -> Seq<char> {
    seq!['i', 't', 'e', 'm']
}

/// The `<+>` separator between mask tokens.
pub open spec fn mask_delim() -> Seq<char> {
    seq!['<', '+', '>']
}

/// What a sequence of mask tokens accumulates: each token names one bit
/// in 0-35; a bit outside that range is a `BadMaskToken`.
pub open spec fn mask_fold(toks: Seq<Seq<char>>, name: Seq<char>) -> Result<u64, FieldError>
    decreases toks.len(),
{
    if toks.len() == 0 {
        Ok(0u64)
    } else {
        match mask_fold(toks.drop_last(), name) {
            Err(e) => Err(e),
            Ok(m) => match bracket_token_spec(toks.last(), name) {
                Err(e) => Err(e),
                Ok(b) => if b >= 36 {
                    Err(FieldError::BadMaskToken)
                } else {
                    Ok(m | (1u64 << b))
                },
            },
        }
    }
}

/// What one equip-mask string yields: the `-` sentinel is the zero mask,
/// otherwise the `<+>`-joined tokens accumulate their bits.
pub open spec fn bracket_mask_spec(s: Seq<char>, name: Seq<char>) -> Result<u64, FieldError> {
    if s == seq!['-'] {
        Ok(0u64)
    } else {
        mask_fold(split_spec(s, mask_delim()), name)
    }
}

proof fn lemma_mask_fold_err_extends(toks: Seq<Seq<char>>, name: Seq<char>, i: int)
    requires
        0 <= i <= toks.len(),
        mask_fold(toks.take(i), name) is Err,
    ensures
        mask_fold(toks, name) == mask_fold(toks.take(i), name),
    decreases toks.len() - i,
{
    if i < toks.len() {
        let next = toks.take(i + 1);
        assert(next.drop_last() =~= toks.take(i));
        assert(mask_fold(next, name) == mask_fold(toks.take(i), name));
        lemma_mask_fold_err_extends(toks, name, i + 1);
    } else {
        assert(toks.take(i) =~= toks);
    }
}

/// Parses one equip-mask string over a given token name.
fn parse_bracket_mask(s: &[char], name: &[char]) -> (r: Result<u64, FieldError>)
    requires
        name@.len() <= 8,
    ensures
        r == bracket_mask_spec(s@, name@),
{
    if s.len() == 1 && s[0] == '-' {
        proof {
            assert(s@ =~= seq!['-']);
        }
        return Ok(0);
    }
    proof {
        if s@ == seq!['-'] {
            assert(s@.len() == 1 && s@[0] == '-');
        }
    }
    proof {
        reveal_strlit("<+>");
        assert("<+>"@ =~= mask_delim());
    }
    let toks = split_str(s, "<+>");
    let ghost tviews = split_spec(s@, mask_delim());
    let n = toks.len();
    let mut m: u64 = 0;
    let mut i: usize = 0;
    proof {
        assert(tviews.take(0) =~= Seq::<Seq<char>>::empty());
    }
    while i < n
        invariant
            0 <= i <= n == toks@.len(),
            n == tviews.len(),
            tviews == split_spec(s@, mask_delim()),
            s@ != seq!['-'],
            name@.len() <= 8,
            forall|j: int| 0 <= j < n ==> toks@[j]@ == #[trigger] tviews[j],
            mask_fold(tviews.take(i as int), name@) == Ok::<u64, FieldError>(m),
        decreases n - i,
    {
        let ghost prefix1 = tviews.take(i + 1);
        proof {
            assert(prefix1.drop_last() =~= tviews.take(i as int));
            assert(prefix1.last() == tviews[i as int]);
        }
        let b = match parse_bracket_token(toks[i].as_slice(), name) {
            Ok(b) => b,
            Err(e) => {
                proof {
                    lemma_mask_fold_err_extends(tviews, name@, i + 1);
                }
                return Err(e);
            },
        };
        if b >= 36 {
            proof {
                lemma_mask_fold_err_extends(tviews, name@, i + 1);
            }
            return Err(FieldError::BadMaskToken);
        }
        m = m | (1u64 << b);
        i = i + 1;
    }
    proof {
        assert(tviews.take(n as int) =~= tviews);
    }
    Ok(m)
}

/// Decodes a class equip mask: `-`, or `<+>`-joined `class[N]` tokens
/// with `N` in 0-35.
pub fn parse_equip_class_mask(s: &str) -> (r: Result<u64, FieldError>)
    ensures
        r == bracket_mask_spec(s@, class_token()),
{
    let chars = chars_of(s);
    proof {
        reveal_strlit("class");
        assert("class"@ =~= class_token());
    }
    let name = chars_of("class");
    parse_bracket_mask(chars.as_slice(), name.as_slice())
}

/// Decodes a race equip mask: `-`, or `<+>`-joined `race[N]` tokens with
/// `N` in 0-35.
pub fn parse_equip_race_mask(s: &str) -> (r: Result<u64, FieldError>)
    ensures
        r == bracket_mask_spec(s@, race_token()),
{
    let chars = chars_of(s);
    proof {
        reveal_strlit("race");
        assert("race"@ =~= race_token());
    }
    let name = chars_of("race");
    parse_bracket_mask(chars.as_slice(), name.as_slice())
}

// ----------------------------------------------------------------------
// equip and curse mask pairs
// ----------------------------------------------------------------------

/// What the equip-mask field yields: the empty string is the zero mask
/// pair; otherwise exactly two comma-separated sub-fields, the class mask
/// then the race mask.
pub open spec fn equip_masks_spec(s: Seq<char>) -> Result<(u64, u64), FieldError> {
    if s.len() == 0 {
        Ok((0u64, 0u64))
    } else {
        let parts = comma_fields(s);
        if parts.len() != 2 {
            Err(FieldError::Arity { expected: 2, actual: parts.len() as u64 })
        } else {
            match bracket_mask_spec(parts[0], class_token()) {
                Err(e) => Err(e),
                Ok(cm) => match bracket_mask_spec(parts[1], race_token()) {
                    Err(e) => Err(e),
                    Ok(rm) => Ok((cm, rm)),
                },
            }
        }
    }
}

/// Decodes the equip-mask field into the class and race masks.
pub fn parse_equip_masks(s: &str) -> (r: Result<(u64, u64), FieldError>)
    ensures
        r == equip_masks_spec(s@),
{
    let chars = chars_of(s);
    parse_equip_masks_chars(chars.as_slice())
}

fn parse_equip_masks_chars(s: &[char]) -> (r: Result<(u64, u64), FieldError>)
    ensures
        r == equip_masks_spec(s@),
{
    if s.len() == 0 {
        return Ok((0, 0));
    }
    proof {
        reveal_strlit(",");
        assert(","@ =~= seq![',']);
    }
    let parts = split_str(s, ",");
    if parts.len() != 2 {
        return Err(FieldError::Arity { expected: 2, actual: parts.len() as u64 });
    }
    proof {
        reveal_strlit("class");
        assert("class"@ =~= class_token());
        reveal_strlit("race");
        assert("race"@ =~= race_token());
    }
    let class_name = chars_of("class");
    let race_name = chars_of("race");
    let cm = match parse_bracket_mask(parts[0].as_slice(), class_name.as_slice()) {
        Ok(m) => m,
        Err(e) => {
            return Err(e);
        },
    };
    let rm = match parse_bracket_mask(parts[1].as_slice(), race_name.as_slice()) {
        Ok(m) => m,
        Err(e) => {
            return Err(e);
        },
    };
    Ok((cm, rm))
}

/// What a curse sub-mask yields: the `-` sentinel is the zero mask,
/// otherwise a small positional digit mask below `limit`.
pub open spec fn curse_sub_mask_spec(s: Seq<char>, limit: nat) -> Result<u8, FieldError> {
    if s == seq!['-'] {
        Ok(0u8)
    } else {
        limited_mask_spec(s, limit)
    }
}

fn parse_curse_sub_mask(s: &[char], limit: u32) -> (r: Result<u8, FieldError>)
    requires
        1 <= limit <= 8,
    ensures
        r == curse_sub_mask_spec(s@, limit as nat),
{
    if s.len() == 1 && s[0] == '-' {
        proof {
            assert(s@ =~= seq!['-']);
        }
        return Ok(0);
    }
    proof {
        if s@ == seq!['-'] {
            assert(s@.len() == 1 && s@[0] == '-');
        }
    }
    parse_limited_mask(s, limit)
}

/// Decodes the curse alignment sub-mask.
pub fn parse_curse_alignment_mask(s: &str) -> (r: Result<u8, FieldError>)
    ensures
        r == curse_sub_mask_spec(s@, 3),
{
    let chars = chars_of(s);
    parse_curse_sub_mask(chars.as_slice(), 3)
}

/// Decodes the curse sex sub-mask.
pub fn parse_curse_sex_mask(s: &str) -> (r: Result<u8, FieldError>)
    ensures
        r == curse_sub_mask_spec(s@, 2),
{
    let chars = chars_of(s);
    parse_curse_sub_mask(chars.as_slice(), 2)
}

/// What the curse-mask field yields: the empty string is the zero mask
/// pair; otherwise exactly two comma-separated sub-fields, the alignment
/// mask then the sex mask.
pub open spec fn curse_masks_spec(s: Seq<char>) -> Result<(u8, u8), FieldError> {
    if s.len() == 0 {
        Ok((0u8, 0u8))
    } else {
        let parts = comma_fields(s);
        if parts.len() != 2 {
            Err(FieldError::Arity { expected: 2, actual: parts.len() as u64 })
        } else {
            match curse_sub_mask_spec(parts[0], 3) {
                Err(e) => Err(e),
                Ok(am) => match curse_sub_mask_spec(parts[1], 2) {
                    Err(e) => Err(e),
                    Ok(sm) => Ok((am, sm)),
                },
            }
        }
    }
}

/// Decodes the curse-mask field into the alignment and sex masks.
pub fn parse_curse_masks(s: &str) -> (r: Result<(u8, u8), FieldError>)
    ensures
        r == curse_masks_spec(s@),
{
    let chars = chars_of(s);
    parse_curse_masks_chars(chars.as_slice())
}

fn parse_curse_masks_chars(s: &[char]) -> (r: Result<(u8, u8), FieldError>)
    ensures
        r == curse_masks_spec(s@),
{
    if s.len() == 0 {
        return Ok((0, 0));
    }
    proof {
        reveal_strlit(",");
        assert(","@ =~= seq![',']);
    }
    let parts = split_str(s, ",");
    if parts.len() != 2 {
        return Err(FieldError::Arity { expected: 2, actual: parts.len() as u64 });
    }
    let am = match parse_curse_sub_mask(parts[0].as_slice(), 3) {
        Ok(m) => m,
        Err(e) => {
            return Err(e);
        },
    };
    let sm = match parse_curse_sub_mask(parts[1].as_slice(), 2) {
        Ok(m) => m,
        Err(e) => {
            return Err(e);
        },
    };
    Ok((am, sm))
}

// ----------------------------------------------------------------------
// the remaining sub-fields
// ----------------------------------------------------------------------

/// What the damage expression yields: exactly 3 comma-separated
/// sub-fields, copied verbatim.
pub open spec fn damage_spec(s: Seq<char>) -> Result<Seq<Seq<char>>, FieldError> {
    let parts = comma_fields(s);
    if parts.len() != 3 {
        Err(FieldError::Arity { expected: 3, actual: parts.len() as u64 })
    } else {
        Ok(parts)
    }
}

/// Decodes the damage expression triple.
pub fn parse_damage_expr(s: &str) -> (r: Result<[String; 3], FieldError>)
    ensures
        match r {
            Ok(t) => damage_spec(s@) == Ok::<Seq<Seq<char>>, FieldError>(
                Seq::new(3, |i: int| t@[i]@),
            ),
            Err(e) => damage_spec(s@) == Err::<Seq<Seq<char>>, FieldError>(e),
        },
{
    let chars = chars_of(s);
    parse_damage_expr_chars(chars.as_slice())
}

fn parse_damage_expr_chars(s: &[char]) -> (r: Result<[String; 3], FieldError>)
    ensures
        match r {
            Ok(t) => damage_spec(s@) == Ok::<Seq<Seq<char>>, FieldError>(
                Seq::new(3, |i: int| t@[i]@),
            ),
            Err(e) => damage_spec(s@) == Err::<Seq<Seq<char>>, FieldError>(e),
        },
{
    proof {
        reveal_strlit(",");
        assert(","@ =~= seq![',']);
    }
    let parts = split_str(s, ",");
    if parts.len() != 3 {
        return Err(FieldError::Arity { expected: 3, actual: parts.len() as u64 });
    }
    let t = [
        string_from_chars(parts[0].as_slice()),
        string_from_chars(parts[1].as_slice()),
        string_from_chars(parts[2].as_slice()),
    ];
    proof {
        assert(Seq::new(3, |i: int| t@[i]@) =~= comma_fields(s@));
    }
    Ok(t)
}

/// What the item attack-debuff code yields: codes 0-5 name no debuff,
/// knockout, critical, sleep, paralysis and petrification; any other
/// code is outside the table.
pub open spec fn item_debuff_spec(s: Seq<char>) -> Result<DebuffMask, FieldError> {
    match parse_u8_spec(s) {
        Option::None => Err(FieldError::Number),
        Option::Some(v) => if v == 0 {
            Ok(DebuffMask { bits: 0 })
        } else if v == 1 {
            Ok(DebuffMask { bits: DEBUFF_KNOCKOUT })
        } else if v == 2 {
            Ok(DebuffMask { bits: DEBUFF_CRITICAL })
        } else if v == 3 {
            Ok(DebuffMask { bits: DEBUFF_SLEEP })
        } else if v == 4 {
            Ok(DebuffMask { bits: DEBUFF_PARALYSIS })
        } else if v == 5 {
            Ok(DebuffMask { bits: DEBUFF_PETRIFICATION })
        } else {
            Err(FieldError::UnknownEnum { value: v })
        },
    }
}

/// Decodes the item attack-debuff code.
pub fn parse_attack_debuff_mask(s: &str) -> (r: Result<DebuffMask, FieldError>)
    ensures
        r == item_debuff_spec(s@),
{
    let chars = chars_of(s);
    parse_item_debuff_chars(chars.as_slice())
}

fn parse_item_debuff_chars(s: &[char]) -> (r: Result<DebuffMask, FieldError>)
    ensures
        r == item_debuff_spec(s@),
{
    match parse_u8_chars(s) {
        Option::None => Err(FieldError::Number),
        Option::Some(v) => {
            if v == 0 {
                Ok(DebuffMask::empty())
            } else if v == 1 {
                Ok(DebuffMask { bits: DEBUFF_KNOCKOUT })
            } else if v == 2 {
                Ok(DebuffMask { bits: DEBUFF_CRITICAL })
            } else if v == 3 {
                Ok(DebuffMask { bits: DEBUFF_SLEEP })
            } else if v == 4 {
                Ok(DebuffMask { bits: DEBUFF_PARALYSIS })
            } else if v == 5 {
                Ok(DebuffMask { bits: DEBUFF_PETRIFICATION })
            } else {
                Err(FieldError::UnknownEnum { value: v })
            }
        },
    }
}

/// What the broken-item field yields: the `-1` sentinel means no linked
/// item; otherwise one `item[N]` token names the id.
pub open spec fn broken_item_spec(s: Seq<char>) -> Result<Option<u32>, FieldError> {
    if s == seq!['-', '1'] {
        Ok(Option::None)
    } else {
        match bracket_token_spec(s, item_token()) {
            Err(e) => Err(e),
            Ok(v) => Ok(Option::Some(v)),
        }
    }
}

/// Decodes the broken-item reference.
pub fn parse_broken_item_id(s: &str) -> (r: Result<Option<u32>, FieldError>)
    ensures
        r == broken_item_spec(s@),
{
    let chars = chars_of(s);
    parse_broken_item_chars(chars.as_slice())
}

fn parse_broken_item_chars(s: &[char]) -> (r: Result<Option<u32>, FieldError>)
    ensures
        r == broken_item_spec(s@),
{
    if s.len() == 2 && s[0] == '-' && s[1] == '1' {
        proof {
            assert(s@ =~= seq!['-', '1']);
        }
        return Ok(Option::None);
    }
    proof {
        if s@ == seq!['-', '1'] {
            assert(s@.len() == 2 && s@[0] == '-' && s@[1] == '1');
        }
    }
    proof {
        reveal_strlit("item");
        assert("item"@ =~= item_token());
    }
    let name = chars_of("item");
    match parse_bracket_token(s, name.as_slice()) {
        Ok(v) => Ok(Option::Some(v)),
        Err(e) => Err(e),
    }
}

/// What the per-stat bonus field yields: a comma-separated `i32` list.
pub open spec fn stats_bonus_spec(s: Seq<char>) -> Result<Seq<i32>, FieldError> {
    if i32_list_ok(s) {
        Ok(i32_list_val(s))
    } else {
        Err(FieldError::Number)
    }
}

/// Decodes the per-stat bonus list.
pub fn parse_stats_bonus(s: &str) -> (r: Result<Vec<i32>, FieldError>)
    ensures
        match r {
            Ok(v) => stats_bonus_spec(s@) == Ok::<Seq<i32>, FieldError>(v@),
            Err(e) => stats_bonus_spec(s@) == Err::<Seq<i32>, FieldError>(e),
        },
{
    let chars = chars_of(s);
    match parse_i32_list(chars.as_slice()) {
        Some(v) => Ok(v),
        None => Err(FieldError::Number),
    }
}

// ----------------------------------------------------------------------
// the record decoder
// ----------------------------------------------------------------------

/// What the item-kind field yields.
pub open spec fn item_kind_spec(s: Seq<char>) -> Result<ItemKind, FieldError> {
    match parse_u8_spec(s) {
        Option::None => Err(FieldError::Number),
        Option::Some(v) => match item_kind_of_code(v) {
            Option::None => Err(FieldError::UnknownEnum { value: v }),
            Option::Some(k) => Ok(k),
        },
    }
}

fn parse_item_kind_chars(s: &[char]) -> (r: Result<ItemKind, FieldError>)
    ensures
        r == item_kind_spec(s@),
{
    match parse_u8_chars(s) {
        Option::None => Err(FieldError::Number),
        Option::Some(v) => match item_kind_from_code(v) {
            Option::None => Err(FieldError::UnknownEnum { value: v }),
            Option::Some(k) => Ok(k),
        },
    }
}

/// What decoding one item record yields: exactly 39 `<>`-delimited
/// fields, converted in the source order (kind 2, price 3, stock 4,
/// equip 5, curse 6, armor classes 8-9, damage 10, modifiers 12-13,
/// debuff 14, healing 18, resistance 22, spell cancel 19, slay 16,
/// protect 17, broken reference 21, identify difficulty 7, target count
/// 26, the boolean gates 28-31, stat bonuses 32, 33-36), the first
/// failing field deciding the error.  Fields 11, 15, 27, 37 and 38 are
/// reserved by the format and left unparsed.
pub open spec fn item_spec(id: u32, text: Seq<char>) -> Result<ItemV, FieldError> {
    let fs = angle_fields(text);
    if fs.len() != 39 {
        Err(FieldError::Arity { expected: 39, actual: fs.len() as u64 })
    } else if item_kind_spec(fs[2]) is Err {
        Err(item_kind_spec(fs[2])->Err_0)
    } else if !(parse_u64_spec(fs[3]) is Some && parse_i32_spec(fs[4]) is Some) {
        Err(FieldError::Number)
    } else if equip_masks_spec(fs[5]) is Err {
        Err(equip_masks_spec(fs[5])->Err_0)
    } else if curse_masks_spec(fs[6]) is Err {
        Err(curse_masks_spec(fs[6])->Err_0)
    } else if !(parse_i32_spec(fs[8]) is Some && parse_i32_spec(fs[9]) is Some) {
        Err(FieldError::Number)
    } else if damage_spec(fs[10]) is Err {
        Err(damage_spec(fs[10])->Err_0)
    } else if !(parse_i32_spec(fs[12]) is Some && parse_i32_spec(fs[13]) is Some) {
        Err(FieldError::Number)
    } else if item_debuff_spec(fs[14]) is Err {
        Err(item_debuff_spec(fs[14])->Err_0)
    } else if parse_i32_spec(fs[18]) is None {
        Err(FieldError::Number)
    } else if resist_mask_spec(fs[22]) is Err {
        Err(resist_mask_spec(fs[22])->Err_0)
    } else if parse_i32_spec(fs[19]) is None {
        Err(FieldError::Number)
    } else if monster_kind_mask_spec(fs[16]) is Err {
        Err(monster_kind_mask_spec(fs[16])->Err_0)
    } else if monster_kind_mask_spec(fs[17]) is Err {
        Err(monster_kind_mask_spec(fs[17])->Err_0)
    } else if broken_item_spec(fs[21]) is Err {
        Err(broken_item_spec(fs[21])->Err_0)
    } else if !(parse_u32_spec(fs[7]) is Some && parse_u32_spec(fs[26]) is Some) {
        Err(FieldError::Number)
    } else if !(parse_bool_spec(fs[28]) is Some && parse_bool_spec(fs[29]) is Some
        && parse_bool_spec(fs[30]) is Some && parse_bool_spec(fs[31]) is Some) {
        Err(FieldError::Number)
    } else if stats_bonus_spec(fs[32]) is Err {
        Err(stats_bonus_spec(fs[32])->Err_0)
    } else if parse_bool_spec(fs[33]) is None {
        Err(FieldError::Number)
    } else if parse_u32_spec(fs[34]) is None {
        Err(FieldError::Number)
    } else if !(parse_bool_spec(fs[35]) is Some && parse_bool_spec(fs[36]) is Some) {
        Err(FieldError::Number)
    } else {
        Ok(
            ItemV {
                id,
                name_ident: fs[0],
                name_unident: fs[1],
                kind: item_kind_spec(fs[2])->Ok_0,
                price: parse_u64_spec(fs[3])->0,
                stock: parse_i32_spec(fs[4])->0,
                equip_class_mask: (equip_masks_spec(fs[5])->Ok_0).0,
                equip_race_mask: (equip_masks_spec(fs[5])->Ok_0).1,
                curse_alignment_mask: (curse_masks_spec(fs[6])->Ok_0).0,
                curse_sex_mask: (curse_masks_spec(fs[6])->Ok_0).1,
                ac: parse_i32_spec(fs[8])->0,
                ac_curse: parse_i32_spec(fs[9])->0,
                damage_expr: damage_spec(fs[10])->Ok_0,
                hit_modifier: parse_i32_spec(fs[12])->0,
                attack_count_modifier: parse_i32_spec(fs[13])->0,
                attack_debuff_mask: item_debuff_spec(fs[14])->Ok_0,
                healing: parse_i32_spec(fs[18])->0,
                resist_mask: resist_mask_spec(fs[22])->Ok_0,
                spell_cancel: parse_i32_spec(fs[19])->0,
                slay_mask: monster_kind_mask_spec(fs[16])->Ok_0,
                protect_mask: monster_kind_mask_spec(fs[17])->Ok_0,
                use_str: fs[24],
                sp_str: fs[25],
                break_prob_expr: fs[20],
                broken_item_id: broken_item_spec(fs[21])->Ok_0,
                description: fs[23],
                ident_difficulty: parse_u32_spec(fs[7])->0,
                attack_target_count: parse_u32_spec(fs[26])->0,
                usable_only_if_equipable: parse_bool_spec(fs[28])->0,
                effect_only_if_equiped: parse_bool_spec(fs[29])->0,
                disable_class_attack_debuff_if_equiped: parse_bool_spec(fs[30])->0,
                disable_class_ac_if_equiped: parse_bool_spec(fs[31])->0,
                stats_bonus: stats_bonus_spec(fs[32])->Ok_0,
                halve_attack_count_if_subweapon: parse_bool_spec(fs[33])->0,
                poison_damage: parse_u32_spec(fs[34])->0,
                effect_only_if_equipable: parse_bool_spec(fs[35])->0,
                hide_in_catalog: parse_bool_spec(fs[36])->0,
            },
        )
    }
}

/// Decodes one item record.
#[verifier::rlimit(100)]
pub fn parse(id: u32, text: &str) -> (r: Result<Item, FieldError>)
    ensures
        match r {
            Ok(it) => item_spec(id, text@) == Ok::<ItemV, FieldError>(it@),
            Err(e) => item_spec(id, text@) == Err::<ItemV, FieldError>(e),
        },
{
    let chars = chars_of(text);
    proof {
        reveal_strlit("<>");
        assert("<>"@ =~= seq!['<', '>']);
    }
    let fields = split_str(chars.as_slice(), "<>");
    if fields.len() != 39 {
        return Err(FieldError::Arity { expected: 39, actual: fields.len() as u64 });
    }
    let kind = match parse_item_kind_chars(fields[2].as_slice()) {
        Ok(k) => k,
        Err(e) => {
            return Err(e);
        },
    };
    let price = match parse_u64_chars(fields[3].as_slice()) {
        Some(v) => v,
        None => {
            return Err(FieldError::Number);
        },
    };
    let stock = match parse_i32_chars(fields[4].as_slice()) {
        Some(v) => v,
        None => {
            return Err(FieldError::Number);
        },
    };
    let (equip_class_mask, equip_race_mask) = match parse_equip_masks_chars(fields[5].as_slice()) {
        Ok(p) => p,
        Err(e) => {
            return Err(e);
        },
    };
    let (curse_alignment_mask, curse_sex_mask) = match parse_curse_masks_chars(
        fields[6].as_slice(),
    ) {
        Ok(p) => p,
        Err(e) => {
            return Err(e);
        },
    };
    let ac = match parse_i32_chars(fields[8].as_slice()) {
        Some(v) => v,
        None => {
            return Err(FieldError::Number);
        },
    };
    let ac_curse = match parse_i32_chars(fields[9].as_slice()) {
        Some(v) => v,
        None => {
            return Err(FieldError::Number);
        },
    };
    let damage_expr = match parse_damage_expr_chars(fields[10].as_slice()) {
        Ok(t) => t,
        Err(e) => {
            return Err(e);
        },
    };
    let hit_modifier = match parse_i32_chars(fields[12].as_slice()) {
        Some(v) => v,
        None => {
            return Err(FieldError::Number);
        },
    };
    let attack_count_modifier = match parse_i32_chars(fields[13].as_slice()) {
        Some(v) => v,
        None => {
            return Err(FieldError::Number);
        },
    };
    let attack_debuff_mask = match parse_item_debuff_chars(fields[14].as_slice()) {
        Ok(m) => m,
        Err(e) => {
            return Err(e);
        },
    };
    let healing = match parse_i32_chars(fields[18].as_slice()) {
        Some(v) => v,
        None => {
            return Err(FieldError::Number);
        },
    };
    let resist_mask = match parse_resist_mask_chars(fields[22].as_slice()) {
        Ok(m) => m,
        Err(e) => {
            return Err(e);
        },
    };
    let spell_cancel = match parse_i32_chars(fields[19].as_slice()) {
        Some(v) => v,
        None => {
            return Err(FieldError::Number);
        },
    };
    let slay_mask = match parse_monster_kind_mask_chars(fields[16].as_slice()) {
        Ok(m) => m,
        Err(e) => {
            return Err(e);
        },
    };
    let protect_mask = match parse_monster_kind_mask_chars(fields[17].as_slice()) {
        Ok(m) => m,
        Err(e) => {
            return Err(e);
        },
    };
    let broken_item_id = match parse_broken_item_chars(fields[21].as_slice()) {
        Ok(v) => v,
        Err(e) => {
            return Err(e);
        },
    };
    let ident_difficulty = match parse_u32_chars(fields[7].as_slice()) {
        Some(v) => v,
        None => {
            return Err(FieldError::Number);
        },
    };
    let attack_target_count = match parse_u32_chars(fields[26].as_slice()) {
        Some(v) => v,
        None => {
            return Err(FieldError::Number);
        },
    };
    let usable_only_if_equipable = match parse_bool_chars(fields[28].as_slice()) {
        Some(v) => v,
        None => {
            return Err(FieldError::Number);
        },
    };
    let effect_only_if_equiped = match parse_bool_chars(fields[29].as_slice()) {
        Some(v) => v,
        None => {
            return Err(FieldError::Number);
        },
    };
    let disable_class_attack_debuff_if_equiped = match parse_bool_chars(fields[30].as_slice()) {
        Some(v) => v,
        None => {
            return Err(FieldError::Number);
        },
    };
    let disable_class_ac_if_equiped = match parse_bool_chars(fields[31].as_slice()) {
        Some(v) => v,
        None => {
            return Err(FieldError::Number);
        },
    };
    let stats_bonus = match parse_i32_list(fields[32].as_slice()) {
        Some(v) => v,
        None => {
            return Err(FieldError::Number);
        },
    };
    let halve_attack_count_if_subweapon = match parse_bool_chars(fields[33].as_slice()) {
        Some(v) => v,
        None => {
            return Err(FieldError::Number);
        },
    };
    let poison_damage = match parse_u32_chars(fields[34].as_slice()) {
        Some(v) => v,
        None => {
            return Err(FieldError::Number);
        },
    };
    let effect_only_if_equipable = match parse_bool_chars(fields[35].as_slice()) {
        Some(v) => v,
        None => {
            return Err(FieldError::Number);
        },
    };
    let hide_in_catalog = match parse_bool_chars(fields[36].as_slice()) {
        Some(v) => v,
        None => {
            return Err(FieldError::Number);
        },
    };
    let it = Item {
        id,
        name_ident: string_from_chars(fields[0].as_slice()),
        name_unident: string_from_chars(fields[1].as_slice()),
        kind,
        price,
        stock,
        equip_class_mask,
        equip_race_mask,
        curse_alignment_mask,
        curse_sex_mask,
        ac,
        ac_curse,
        damage_expr,
        hit_modifier,
        attack_count_modifier,
        attack_debuff_mask,
        healing,
        resist_mask,
        spell_cancel,
        slay_mask,
        protect_mask,
        use_str: string_from_chars(fields[24].as_slice()),
        sp_str: string_from_chars(fields[25].as_slice()),
        break_prob_expr: string_from_chars(fields[20].as_slice()),
        broken_item_id,
        description: string_from_chars(fields[23].as_slice()),
        ident_difficulty,
        attack_target_count,
        usable_only_if_equipable,
        effect_only_if_equiped,
        disable_class_attack_debuff_if_equiped,
        disable_class_ac_if_equiped,
        stats_bonus,
        halve_attack_count_if_subweapon,
        poison_damage,
        effect_only_if_equipable,
        hide_in_catalog,
    };
    proof {
        let fs = angle_fields(text@);
        assert(Seq::new(3, |i: int| it.damage_expr@[i]@) =~= comma_fields(fs[10]));
        assert(it@ == item_spec(id, text@)->Ok_0);
    }
    Ok(it)
}

/// The views of an item sequence.
pub open spec fn item_views(v: Seq<Item>) -> Seq<ItemV> {
    v.map_values(|it: Item| it@)
}

/// The `Item` key prefix.
pub open spec fn item_prefix() -> Seq<char> {
    seq!['I', 't', 'e', 'm']
}

/// A successful item run: `v` holds the decodings of `Item0`, `Item1`,
/// ... up to the first absent index.
pub open spec fn items_run_ok(m: Map<Seq<char>, Seq<char>>, v: Seq<ItemV>) -> bool {
    &&& forall|j: int|
        0 <= j < v.len() ==> m.contains_key(#[trigger] seq_key(item_prefix(), j)) && item_spec(
            j as u32,
            m[seq_key(item_prefix(), j)],
        ) == Ok::<ItemV, FieldError>(v[j])
    &&& !m.contains_key(seq_key(item_prefix(), v.len() as int))
}

/// Entities before `id` decode, and entity `id` is the first to fail,
/// its error wrapped with the entity kind and id.
pub open spec fn items_run_err_at(m: Map<Seq<char>, Seq<char>>, e: LoadError, id: int) -> bool {
    &&& 0 <= id <= u32::MAX
    &&& m.contains_key(seq_key(item_prefix(), id))
    &&& forall|j: int|
        0 <= j < id ==> m.contains_key(#[trigger] seq_key(item_prefix(), j)) && item_spec(
            j as u32,
            m[seq_key(item_prefix(), j)],
        ) is Ok
    &&& item_spec(id as u32, m[seq_key(item_prefix(), id)]) matches Err(fe) && e
        == LoadError::Entity { kind: EntityKind::Item, id: id as u32, err: fe }
}

/// A failed run: some entity is the first to fail.
pub open spec fn items_run_err(m: Map<Seq<char>, Seq<char>>, e: LoadError) -> bool {
    exists|id: int| #[trigger] items_run_err_at(m, e, id)
}

/// Decodes the whole item sequence, stopping at the first absent index
/// and aborting on the first malformed record.
pub fn items_from_kvs(kvs: &Kvs) -> (r: Result<Vec<Item>, LoadError>)
    requires
        kvs.wf(),
        kvs@.dom().len() <= u32::MAX as nat,
    ensures
        match r {
            Ok(v) => items_run_ok(kvs@, item_views(v@)),
            Err(e) => items_run_err(kvs@, e),
        },
{
    let texts = kvs.iter_seq("Item");
    proof {
        reveal_strlit("Item");
        assert("Item"@ =~= item_prefix());
        kvs.lemma_dom_finite();
        lemma_run_bound(kvs@, item_prefix(), texts@.len() as int);
    }
    let n = texts.len();
    let mut out: Vec<Item> = Vec::new();
    let mut i: usize = 0;
    while i < n
        invariant
            0 <= i <= n == texts@.len(),
            n <= u32::MAX,
            i == out@.len(),
            forall|j: int|
                0 <= j < n ==> kvs@.contains_key(#[trigger] seq_key(item_prefix(), j))
                    && texts@[j]@ == kvs@[seq_key(item_prefix(), j)],
            !kvs@.contains_key(seq_key(item_prefix(), n as int)),
            forall|j: int|
                0 <= j < i ==> item_spec(j as u32, kvs@[#[trigger] seq_key(item_prefix(), j)])
                    == Ok::<ItemV, FieldError>(out@[j]@),
        decreases n - i,
    {
        let id = i as u32;
        match parse(id, texts[i].as_str()) {
            Ok(it) => {
                out.push(it);
            },
            Err(fe) => {
                let e = LoadError::Entity { kind: EntityKind::Item, id, err: fe };
                proof {
                    let w = i as int;
                    assert(item_spec(w as u32, kvs@[seq_key(item_prefix(), w)]) matches Err(f2)
                        && f2 == fe);
                    assert(items_run_err_at(kvs@, e, w));
                }
                return Err(e);
            },
        }
        i = i + 1;
    }
    proof {
        assert(item_views(out@).len() == out@.len());
        assert(forall|j: int|
            0 <= j < out@.len() ==> item_views(out@)[j] == #[trigger] out@[j]@);
    }
    Ok(out)
}

} // verus!
