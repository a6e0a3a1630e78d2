//! Name-table-driven human-readable rendering of decoded values.
//!
//! Each flag-set renders as one fixed glyph per set flag, in table
//! order; enum codes render through their fixed name tables.  These are
//! the read-only helpers a tabular viewer builds its cells from.

use crate::item::ItemKind;
use crate::masks::DebuffMask;
use crate::masks::MonsterKindMask;
use crate::masks::ResistMask;
use crate::masks::DEBUFF_CRITICAL;
use crate::masks::DEBUFF_KNOCKOUT;
use crate::masks::DEBUFF_PARALYSIS;
use crate::masks::DEBUFF_PETRIFICATION;
use crate::masks::DEBUFF_SLEEP;
use crate::masks::RESIST_COLD;
use crate::masks::RESIST_CRITICAL;
use crate::masks::RESIST_DEATH;
use crate::masks::RESIST_DRAIN;
use crate::masks::RESIST_ELECTRIC;
use crate::masks::RESIST_FIRE;
use crate::masks::RESIST_GENERIC;
use crate::masks::RESIST_HOLY;
use crate::masks::RESIST_KNOCKOUT;
use crate::masks::RESIST_PARALYSIS;
use crate::masks::RESIST_PETRIFICATION;
use crate::masks::RESIST_POISON;
use crate::masks::RESIST_SILENCE;
use crate::masks::RESIST_SLEEP;
use crate::monster::monster_kind_of_code;
use crate::monster::MonsterKind;
use crate::scenario::Scenario;
use crate::text::chars_of;
use crate::text::split_spec;
use crate::text::split_str;
use crate::text::string_from_chars;
use vstd::prelude::*;

verus! {

// ----------------------------------------------------------------------
// tag stripping
// ----------------------------------------------------------------------

/// The concatenation of a sequence of parts.
pub open spec fn concat_parts(parts: Seq<Seq<char>>) -> Seq<char>
    decreases parts.len(),
{
    if parts.len() == 0 {
        Seq::empty()
    } else {
        concat_parts(parts.drop_last()) + parts.last()
    }
}

/// The line-break tag removed from description texts.
pub open spec fn br_tag() -> Seq<char> {
    seq!['<', 'b', 'r', '>']
}

/// The text with every `<br>` occurrence removed: the concatenation of
/// the fields between the tags.
pub open spec fn strip_tags_spec(s: Seq<char>) -> Seq<char> {
    concat_parts(split_spec(s, br_tag()))
}

/// Removes every `<br>` tag from a text.
pub fn strip_text_tags(s: &str) -> (r: String)
    ensures
        r@ == strip_tags_spec(s@),
{
    let chars = chars_of(s);
    proof {
        reveal_strlit("<br>");
        assert("<br>"@ =~= br_tag());
    }
    let parts = split_str(chars.as_slice(), "<br>");
    let ghost pviews = split_spec(s@, br_tag());
    let n = parts.len();
    let mut acc: Vec<char> = Vec::new();
    let mut i: usize = 0;
    proof {
        assert(pviews.take(0) =~= Seq::<Seq<char>>::empty());
    }
    while i < n
        invariant
            0 <= i <= n == parts@.len(),
            n == pviews.len(),
            pviews == split_spec(s@, br_tag()),
            forall|j: int| 0 <= j < n ==> parts@[j]@ == #[trigger] pviews[j],
            acc@ == concat_parts(pviews.take(i as int)),
        decreases n - i,
    {
        let ghost prefix1 = pviews.take(i + 1);
        proof {
            assert(prefix1.drop_last() =~= pviews.take(i as int));
            assert(prefix1.last() == pviews[i as int]);
        }
        let part = &parts[i];
        let pn = part.len();
        let mut k: usize = 0;
        while k < pn
            invariant
                0 <= k <= pn == part@.len(),
                acc@ == concat_parts(pviews.take(i as int)) + part@.take(k as int),
                pviews == split_spec(s@, br_tag()),
                i < pviews.len(),
                part@ == pviews[i as int],
            decreases pn - k,
        {
            acc.push(part[k]);
            proof {
                assert(part@.take(k + 1) =~= part@.take(k as int).push(part@[k as int]));
                assert(concat_parts(pviews.take(i as int)) + part@.take(k + 1)
                    =~= (concat_parts(pviews.take(i as int)) + part@.take(k as int)).push(
                    part@[k as int],
                ));
            }
            k = k + 1;
        }
        proof {
            assert(part@.take(pn as int) =~= part@);
        }
        i = i + 1;
    }
    proof {
        assert(pviews.take(n as int) =~= pviews);
    }
    string_from_chars(acc.as_slice())
}

// ----------------------------------------------------------------------
// flag-set glyphs
// ----------------------------------------------------------------------

/// The glyph run of a boolean: a circle mark for true, nothing for
/// false.
pub open spec fn bool_str_spec(b: bool) -> Seq<char> {
    if b {
        seq!['o']
    } else {
        Seq::empty()
    }
}

/// Renders a boolean as its table cell.
pub fn bool_str(b: bool) -> (r: String)
    ensures
        r@ == bool_str_spec(b),
{
    let mut cs: Vec<char> = Vec::new();
    if b {
        cs.push('o');
    }
    proof {
        assert(cs@ =~= bool_str_spec(b));
    }
    string_from_chars(cs.as_slice())
}

/// The flag constant at one row of the resistance glyph table.
pub open spec fn resist_row_flag(i: int) -> u32 {
    if i == 0 {
        RESIST_SILENCE
    } else if i == 1 {
        RESIST_SLEEP
    } else if i == 2 {
        RESIST_POISON
    } else if i == 3 {
        RESIST_PARALYSIS
    } else if i == 4 {
        RESIST_PETRIFICATION
    } else if i == 5 {
        RESIST_DRAIN
    } else if i == 6 {
        RESIST_KNOCKOUT
    } else if i == 7 {
        RESIST_CRITICAL
    } else if i == 8 {
        RESIST_DEATH
    } else if i == 9 {
        RESIST_FIRE
    } else if i == 10 {
        RESIST_COLD
    } else if i == 11 {
        RESIST_ELECTRIC
    } else if i == 12 {
        RESIST_HOLY
    } else if i == 13 {
        RESIST_GENERIC
    } else {
        0
    }
}

/// The glyph at one row of the resistance glyph table.
pub open spec fn resist_row_glyph(i: int) -> char {
    if i == 0 {
        '黙'
    } else if i == 1 {
        '眠'
    } else if i == 2 {
        '毒'
    } else if i == 3 {
        '麻'
    } else if i == 4 {
        '石'
    } else if i == 5 {
        '吸'
    } else if i == 6 {
        '気'
    } else if i == 7 {
        '首'
    } else if i == 8 {
        '死'
    } else if i == 9 {
        '火'
    } else if i == 10 {
        '冷'
    } else if i == 11 {
        '電'
    } else if i == 12 {
        '聖'
    } else if i == 13 {
        '無'
    } else {
        ' '
    }
}

/// The glyphs of the first `n` table rows whose flag is set.
pub open spec fn resist_glyphs_upto(bits: u32, n: int) -> Seq<char>
    decreases n,
{
    if n <= 0 {
        Seq::empty()
    } else {
        resist_glyphs_upto(bits, n - 1) + (if bits & resist_row_flag(n - 1) != 0 {
            seq![resist_row_glyph(n - 1)]
        } else {
            Seq::<char>::empty()
        })
    }
}

/// The glyph run of a resistance set, one glyph per set flag in table
/// order.
pub open spec fn resist_mask_str_spec(mask: ResistMask) -> Seq<char> {
    resist_glyphs_upto(mask.bits, 14)
}

/// The flag and glyph of one resistance table row.
fn resist_row(i: usize) -> (r: (u32, char))
    requires
        i < 14,
    ensures
        r.0 == resist_row_flag(i as int),
        r.1 == resist_row_glyph(i as int),
{
    if i == 0 {
        (RESIST_SILENCE, '黙')
    } else if i == 1 {
        (RESIST_SLEEP, '眠')
    } else if i == 2 {
        (RESIST_POISON, '毒')
    } else if i == 3 {
        (RESIST_PARALYSIS, '麻')
    } else if i == 4 {
        (RESIST_PETRIFICATION, '石')
    } else if i == 5 {
        (RESIST_DRAIN, '吸')
    } else if i == 6 {
        (RESIST_KNOCKOUT, '気')
    } else if i == 7 {
        (RESIST_CRITICAL, '首')
    } else if i == 8 {
        (RESIST_DEATH, '死')
    } else if i == 9 {
        (RESIST_FIRE, '火')
    } else if i == 10 {
        (RESIST_COLD, '冷')
    } else if i == 11 {
        (RESIST_ELECTRIC, '電')
    } else if i == 12 {
        (RESIST_HOLY, '聖')
    } else {
        (RESIST_GENERIC, '無')
    }
}

/// Renders a resistance set as its glyph run.
pub fn resist_mask_str(mask: ResistMask) -> (r: String)
    ensures
        r@ == resist_mask_str_spec(mask),
{
    let bits = mask.bits;
    let mut cs: Vec<char> = Vec::new();
    let mut i: usize = 0;
    while i < 14
        invariant
            0 <= i <= 14,
            cs@ == resist_glyphs_upto(bits, i as int),
            bits == mask.bits,
        decreases 14 - i,
    {
        let row = resist_row(i);
        if bits & row.0 != 0 {
            cs.push(row.1);
        }
        proof {
            if bits & resist_row_flag(i as int) != 0 {
                assert(cs@ =~= resist_glyphs_upto(bits, i as int) + seq![
                    resist_row_glyph(i as int),
                ]);
            } else {
                assert(cs@ =~= resist_glyphs_upto(bits, i as int) + Seq::<char>::empty());
            }
        }
        i = i + 1;
    }
    string_from_chars(cs.as_slice())
}

/// The glyph run of a debuff set, one glyph per set flag in table order.
pub open spec fn debuff_mask_str_spec(mask: DebuffMask) -> Seq<char> {
    (if mask.bits & DEBUFF_SLEEP != 0 {
        seq!['眠']
    } else {
        Seq::<char>::empty()
    }) + (if mask.bits & DEBUFF_PARALYSIS != 0 {
        seq!['麻']
    } else {
        Seq::<char>::empty()
    }) + (if mask.bits & DEBUFF_PETRIFICATION != 0 {
        seq!['石']
    } else {
        Seq::<char>::empty()
    }) + (if mask.bits & DEBUFF_KNOCKOUT != 0 {
        seq!['気']
    } else {
        Seq::<char>::empty()
    }) + (if mask.bits & DEBUFF_CRITICAL != 0 {
        seq!['首']
    } else {
        Seq::<char>::empty()
    })
}

/// Renders a debuff set as its glyph run.
pub fn debuff_mask_str(mask: DebuffMask) -> (r: String)
    ensures
        r@ == debuff_mask_str_spec(mask),
{
    let mut cs: Vec<char> = Vec::new();
    if mask.bits & DEBUFF_SLEEP != 0 {
        cs.push('眠');
    }
    if mask.bits & DEBUFF_PARALYSIS != 0 {
        cs.push('麻');
    }
    if mask.bits & DEBUFF_PETRIFICATION != 0 {
        cs.push('石');
    }
    if mask.bits & DEBUFF_KNOCKOUT != 0 {
        cs.push('気');
    }
    if mask.bits & DEBUFF_CRITICAL != 0 {
        cs.push('首');
    }
    proof {
        assert(cs@ =~= debuff_mask_str_spec(mask));
    }
    string_from_chars(cs.as_slice())
}

/// The glyph run of a sex mask, one glyph per set bit.
pub open spec fn sex_mask_str_spec(mask: u8) -> Seq<char> {
    (if mask & 0x1 != 0 {
        seq!['男']
    } else {
        Seq::<char>::empty()
    }) + (if mask & 0x2 != 0 {
        seq!['女']
    } else {
        Seq::<char>::empty()
    })
}

/// Renders a sex mask as its glyph run.
pub fn sex_mask_str(mask: u8) -> (r: String)
    ensures
        r@ == sex_mask_str_spec(mask),
{
    let mut cs: Vec<char> = Vec::new();
    if mask & 0x1 != 0 {
        cs.push('男');
    }
    if mask & 0x2 != 0 {
        cs.push('女');
    }
    proof {
        assert(cs@ =~= sex_mask_str_spec(mask));
    }
    string_from_chars(cs.as_slice())
}

/// The letter run of an alignment mask, one letter per set bit.
pub open spec fn alignment_mask_str_spec(mask: u8) -> Seq<char> {
    (if mask & 0x1 != 0 {
        seq!['G']
    } else {
        Seq::<char>::empty()
    }) + (if mask & 0x2 != 0 {
        seq!['N']
    } else {
        Seq::<char>::empty()
    }) + (if mask & 0x4 != 0 {
        seq!['E']
    } else {
        Seq::<char>::empty()
    })
}

/// Renders an alignment mask as its letter run.
pub fn alignment_mask_str(mask: u8) -> (r: String)
    ensures
        r@ == alignment_mask_str_spec(mask),
{
    let mut cs: Vec<char> = Vec::new();
    if mask & 0x1 != 0 {
        cs.push('G');
    }
    if mask & 0x2 != 0 {
        cs.push('N');
    }
    if mask & 0x4 != 0 {
        cs.push('E');
    }
    proof {
        assert(cs@ =~= alignment_mask_str_spec(mask));
    }
    string_from_chars(cs.as_slice())
}

// ----------------------------------------------------------------------
// enum name tables
// ----------------------------------------------------------------------

/// The fixed name of each item kind.
pub open spec fn item_kind_str_spec(kind: ItemKind) -> Seq<char> {
    match kind {
        ItemKind::Weapon => seq!['武', '器'],
        ItemKind::Armor => seq!['鎧'],
        ItemKind::Shield => seq!['盾'],
        ItemKind::Helmet => seq!['兜'],
        ItemKind::Gloves => seq!['小', '手'],
        ItemKind::Boots => seq!['靴'],
        ItemKind::Tool => seq!['道', '具'],
    }
}

/// Renders an item kind through its fixed name table.
pub fn item_kind_str(kind: ItemKind) -> (r: String)
    ensures
        r@ == item_kind_str_spec(kind),
{
    let mut cs: Vec<char> = Vec::new();
    match kind {
        ItemKind::Weapon => {
            cs.push('武');
            cs.push('器');
        },
        ItemKind::Armor => {
            cs.push('鎧');
        },
        ItemKind::Shield => {
            cs.push('盾');
        },
        ItemKind::Helmet => {
            cs.push('兜');
        },
        ItemKind::Gloves => {
            cs.push('小');
            cs.push('手');
        },
        ItemKind::Boots => {
            cs.push('靴');
        },
        ItemKind::Tool => {
            cs.push('道');
            cs.push('具');
        },
    }
    proof {
        assert(cs@ =~= item_kind_str_spec(kind));
    }
    string_from_chars(cs.as_slice())
}

/// The fixed name of each monster kind.
pub open spec fn monster_kind_str_spec(kind: MonsterKind) -> Seq<char> {
    match kind {
        MonsterKind::Fighter => seq!['戦', '士'],
        MonsterKind::Mage => seq!['魔', '法', '使', 'い'],
        MonsterKind::Priest => seq!['僧', '侶'],
        MonsterKind::Thief => seq!['盗', '賊'],
        MonsterKind::Midget => seq!['小', '人'],
        MonsterKind::Giant => seq!['巨', '人'],
        MonsterKind::Myth => seq!['神', '話'],
        MonsterKind::Dragon => seq!['竜'],
        MonsterKind::Animal => seq!['動', '物'],
        MonsterKind::Werecreature => seq!['獣', '人'],
        MonsterKind::Undead => seq!['不', '死'],
        MonsterKind::Demon => seq!['悪', '魔'],
        MonsterKind::Insect => seq!['昆', '虫'],
        MonsterKind::Enchanted => seq!['魔', '法', '生', '物'],
        MonsterKind::Mystery => seq!['謎', 'の', '生', '物'],
    }
}

/// Builds the character run of a monster kind's name.
fn monster_kind_name_chars(kind: MonsterKind) -> (r: Vec<char>)
    ensures
        r@ == monster_kind_str_spec(kind),
{
    let mut cs: Vec<char> = Vec::new();
    match kind {
        MonsterKind::Fighter => {
            cs.push('戦');
            cs.push('士');
        },
        MonsterKind::Mage => {
            cs.push('魔');
            cs.push('法');
            cs.push('使');
            cs.push('い');
        },
        MonsterKind::Priest => {
            cs.push('僧');
            cs.push('侶');
        },
        MonsterKind::Thief => {
            cs.push('盗');
            cs.push('賊');
        },
        MonsterKind::Midget => {
            cs.push('小');
            cs.push('人');
        },
        MonsterKind::Giant => {
            cs.push('巨');
            cs.push('人');
        },
        MonsterKind::Myth => {
            cs.push('神');
            cs.push('話');
        },
        MonsterKind::Dragon => {
            cs.push('竜');
        },
        MonsterKind::Animal => {
            cs.push('動');
            cs.push('物');
        },
        MonsterKind::Werecreature => {
            cs.push('獣');
            cs.push('人');
        },
        MonsterKind::Undead => {
            cs.push('不');
            cs.push('死');
        },
        MonsterKind::Demon => {
            cs.push('悪');
            cs.push('魔');
        },
        MonsterKind::Insect => {
            cs.push('昆');
            cs.push('虫');
        },
        MonsterKind::Enchanted => {
            cs.push('魔');
            cs.push('法');
            cs.push('生');
            cs.push('物');
        },
        MonsterKind::Mystery => {
            cs.push('謎');
            cs.push('の');
            cs.push('生');
            cs.push('物');
        },
    }
    proof {
        assert(cs@ =~= monster_kind_str_spec(kind));
    }
    cs
}

/// Renders a monster kind through its fixed name table.
pub fn monster_kind_str(kind: MonsterKind) -> (r: String)
    ensures
        r@ == monster_kind_str_spec(kind),
{
    let cs = monster_kind_name_chars(kind);
    string_from_chars(cs.as_slice())
}

// ----------------------------------------------------------------------
// positional masks over the scenario's own sequences
// ----------------------------------------------------------------------

/// The marker of one race in a positional mask: the first character of
/// its abbreviation, a placeholder when the abbreviation is empty.
pub open spec fn race_char_spec(abbr: Seq<char>) -> char {
    if abbr.len() > 0 {
        abbr[0]
    } else {
        '?'
    }
}

/// The row of a race equip mask: per race, its marker where its bit is
/// set, a dash where it is not.
pub open spec fn race_mask_str_spec(sc: crate::scenario::ScenarioV, mask: u64) -> Seq<char> {
    Seq::new(
        sc.races.len(),
        |i: int|
            if mask & (1u64 << i) != 0 {
                race_char_spec(sc.races[i].name_abbr)
            } else {
                '-'
            },
    )
}

/// Renders a race equip mask against the scenario's races.
pub fn race_mask_str(scenario: &Scenario, mask: u64) -> (r: String)
    requires
        scenario.races@.len() <= 64,
    ensures
        r@ == race_mask_str_spec(scenario@, mask),
{
    let n = scenario.races.len();
    let mut cs: Vec<char> = Vec::new();
    let mut i: usize = 0;
    while i < n
        invariant
            0 <= i <= n == scenario.races@.len(),
            n <= 64,
            cs@ == race_mask_str_spec(scenario@, mask).take(i as int),
        decreases n - i,
    {
        let c: char = if mask & (1u64 << i) != 0 {
            first_abbr_char(&scenario.races[i].name_abbr)
        } else {
            '-'
        };
        cs.push(c);
        proof {
            assert(race_mask_str_spec(scenario@, mask).take(i + 1) =~= race_mask_str_spec(
                scenario@,
                mask,
            ).take(i as int).push(race_mask_str_spec(scenario@, mask)[i as int]));
        }
        i = i + 1;
    }
    proof {
        assert(race_mask_str_spec(scenario@, mask).take(n as int) =~= race_mask_str_spec(
            scenario@,
            mask,
        ));
    }
    string_from_chars(cs.as_slice())
}

/// The first character of an abbreviation, or the placeholder.
fn first_abbr_char(abbr: &String) -> (r: char)
    ensures
        r == race_char_spec(abbr@),
{
    let s = abbr.as_str();
    if s.is_empty() {
        '?'
    } else {
        s.get_char(0)
    }
}

/// The row of a class equip mask: per class, the first character of its
/// abbreviation where its bit is set, a dash where it is not.
pub open spec fn class_mask_str_spec(sc: crate::scenario::ScenarioV, mask: u64) -> Seq<char> {
    Seq::new(
        sc.classes.len(),
        |i: int|
            if mask & (1u64 << i) != 0 {
                race_char_spec(sc.classes[i].name_abbr)
            } else {
                '-'
            },
    )
}

/// Renders a class equip mask against the scenario's classes.
pub fn class_mask_str(scenario: &Scenario, mask: u64) -> (r: String)
    requires
        scenario.classes@.len() <= 64,
    ensures
        r@ == class_mask_str_spec(scenario@, mask),
{
    let n = scenario.classes.len();
    let mut cs: Vec<char> = Vec::new();
    let mut i: usize = 0;
    while i < n
        invariant
            0 <= i <= n == scenario.classes@.len(),
            n <= 64,
            cs@ == class_mask_str_spec(scenario@, mask).take(i as int),
        decreases n - i,
    {
        let c: char = if mask & (1u64 << i) != 0 {
            first_abbr_char(&scenario.classes[i].name_abbr)
        } else {
            '-'
        };
        cs.push(c);
        proof {
            assert(class_mask_str_spec(scenario@, mask).take(i + 1) =~= class_mask_str_spec(
                scenario@,
                mask,
            ).take(i as int).push(class_mask_str_spec(scenario@, mask)[i as int]));
        }
        i = i + 1;
    }
    proof {
        assert(class_mask_str_spec(scenario@, mask).take(n as int) =~= class_mask_str_spec(
            scenario@,
            mask,
        ));
    }
    string_from_chars(cs.as_slice())
}

// ----------------------------------------------------------------------
// the monster-kind mask row
// ----------------------------------------------------------------------

/// The names of the kinds whose bits below `n` are set, in code order.
pub open spec fn kind_names_upto(bits: u32, n: int) -> Seq<Seq<char>>
    decreases n,
{
    if n <= 0 {
        Seq::empty()
    } else {
        kind_names_upto(bits, n - 1) + (if bits & (1u32 << ((n - 1) as u32)) != 0 {
            seq![monster_kind_str_spec(monster_kind_of_code((n - 1) as u8)->0)]
        } else {
            Seq::<Seq<char>>::empty()
        })
    }
}

/// Parts joined with single spaces.
pub open spec fn join_spaces(parts: Seq<Seq<char>>) -> Seq<char>
    decreases parts.len(),
{
    if parts.len() == 0 {
        Seq::empty()
    } else if parts.len() == 1 {
        parts[0]
    } else {
        join_spaces(parts.drop_last()) + seq![' '] + parts.last()
    }
}

/// The row of a monster-kind mask: the names of the set kinds, in code
/// order, joined with spaces.
pub open spec fn monster_kind_mask_str_spec(mask: MonsterKindMask) -> Seq<char> {
    join_spaces(kind_names_upto(mask.bits, 15))
}

/// Renders a monster-kind mask as its space-joined name row.  The mask
/// must carry only defined bits.
pub fn monster_kind_mask_str(mask: MonsterKindMask) -> (r: String)
    requires
        mask.wf(),
    ensures
        r@ == monster_kind_mask_str_spec(mask),
{
    let bits = mask.bits;
    let mut cs: Vec<char> = Vec::new();
    let mut count: usize = 0;
    let mut i: u8 = 0;
    while i < 15
        invariant
            0 <= i <= 15,
            count <= i,
            count == kind_names_upto(bits as u32, i as int).len(),
            cs@ == join_spaces(kind_names_upto(bits as u32, i as int)),
        decreases 15 - i,
    {
        let ghost names = kind_names_upto(bits as u32, i as int);
        if bits & (1u32 << (i as u32)) != 0 {
            let kind = match crate::monster::monster_kind_from_code(i) {
                Some(k) => k,
                None => {
                    proof {
                        assert(false);
                    }
                    MonsterKind::Fighter
                },
            };
            let name = monster_kind_name_chars(kind);
            let ghost names1 = kind_names_upto(bits as u32, i + 1);
            proof {
                assert(names1 =~= names.push(monster_kind_str_spec(kind)));
                assert(names1.drop_last() =~= names);
                assert(names1.last() == monster_kind_str_spec(kind));
            }
            if count > 0 {
                cs.push(' ');
            }
            let nn = name.len();
            let ghost before = cs@;
            let mut k: usize = 0;
            while k < nn
                invariant
                    0 <= k <= nn == name@.len(),
                    cs@ == before + name@.take(k as int),
                decreases nn - k,
            {
                cs.push(name[k]);
                proof {
                    assert(name@.take(k + 1) =~= name@.take(k as int).push(name@[k as int]));
                    assert(before + name@.take(k + 1) =~= (before + name@.take(k as int)).push(
                        name@[k as int],
                    ));
                }
                k = k + 1;
            }
            proof {
                assert(name@.take(nn as int) =~= name@);
                if names.len() == 0 {
                    assert(join_spaces(names1) == names1[0]);
                    assert(cs@ =~= join_spaces(names1));
                } else {
                    assert(join_spaces(names1) == join_spaces(names) + seq![' '] + name@);
                    assert(cs@ =~= join_spaces(names) + seq![' '] + name@);
                }
            }
            count = count + 1;
        } else {
            proof {
                assert(kind_names_upto(bits as u32, i + 1) =~= names);
            }
        }
        i = i + 1;
    }
    string_from_chars(cs.as_slice())
}

} // verus!
