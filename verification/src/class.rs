//! Classes: the `Class` entity sequence.

use crate::error::EntityKind;
use crate::error::FieldError;
use crate::error::LoadError;
use crate::kvs::lemma_run_bound;
use crate::kvs::seq_key;
use crate::kvs::Kvs;
use crate::masks::DebuffMask;
use crate::masks::MonsterKindMask;
use crate::masks::DEBUFF_CRITICAL;
use crate::masks::DEBUFF_KNOCKOUT;
use crate::text::angle_fields;
use crate::text::chars_of;
use crate::text::comma_fields;
use crate::text::parse_bool_chars;
use crate::text::parse_bool_spec;
use crate::text::parse_i32_chars;
use crate::text::parse_i32_spec;
use crate::text::parse_u32_chars;
use crate::text::parse_u32_list;
use crate::text::parse_u32_spec;
use crate::text::parse_u8_chars;
use crate::text::parse_u8_spec;
use crate::text::split_str;
use crate::text::string_from_chars;
use crate::text::u32_list_ok;
use crate::text::u32_list_val;
use crate::util::limited_mask_spec;
use crate::util::monster_kind_mask_spec;
use crate::util::parse_limited_mask;
use crate::util::parse_monster_kind_mask_chars;
use vstd::prelude::*;

verus! {

/// One character class, as the scenario defines it.
#[derive(Debug)]
pub struct Class {
    /// The class's position in the `Class` run.
    pub id: u32,
    /// The display name.
    pub name: String,
    /// The abbreviated name.
    pub name_abbr: String,
    /// Which sexes may take the class (bit per sex).
    pub sex_mask: u8,
    /// Which alignments may take the class (bit per alignment).
    pub alignment_mask: u8,
    /// The ordered stat requirements.
    pub stats: Vec<u32>,
    /// The armor-class expression.
    pub ac_expr: String,
    /// The hit-modifier expression.
    pub hit_expr: String,
    /// The attack-count expression.
    pub attack_count_expr: String,
    /// The unarmed damage expression triple.
    pub barehand_damage_expr: [String; 3],
    /// The debuff the class's unarmed attack inflicts.
    pub attack_debuff_mask: DebuffMask,
    /// The thief-skill level.
    pub thief_skill: i32,
    /// Whether the class can identify items.
    pub can_identify: bool,
    /// The level from which the class dispels, if any.
    pub xl_for_dispell: Option<u32>,
    /// The monster kinds the dispel applies to.
    pub dispell_mask: MonsterKindMask,
    /// The hit-point expression.
    pub hp_expr: String,
    /// The experience expression.
    pub xp_expr: String,
    /// The description text.
    pub description: String,
    /// The inventory-slot bonus.
    pub inven_bonus: i32,
    /// The free-form appearance-condition expression.
    pub cond_to_appear: String,
}

/// The mathematical content of a [`Class`].
pub struct ClassV {
    pub id: u32,
    pub name: Seq<char>,
    pub name_abbr: Seq<char>,
    pub sex_mask: u8,
    pub alignment_mask: u8,
    pub stats: Seq<u32>,
    pub ac_expr: Seq<char>,
    pub hit_expr: Seq<char>,
    pub attack_count_expr: Seq<char>,
    pub barehand_damage_expr: Seq<Seq<char>>,
    pub attack_debuff_mask: DebuffMask,
    pub thief_skill: i32,
    pub can_identify: bool,
    pub xl_for_dispell: Option<u32>,
    pub dispell_mask: MonsterKindMask,
    pub hp_expr: Seq<char>,
    pub xp_expr: Seq<char>,
    pub description: Seq<char>,
    pub inven_bonus: i32,
    pub cond_to_appear: Seq<char>,
}

impl View for Class {
    type V = ClassV;

    open spec fn view(&self) -> ClassV {
        ClassV {
            id: self.id,
            name: self.name@,
            name_abbr: self.name_abbr@,
            sex_mask: self.sex_mask,
            alignment_mask: self.alignment_mask,
            stats: self.stats@,
            ac_expr: self.ac_expr@,
            hit_expr: self.hit_expr@,
            attack_count_expr: self.attack_count_expr@,
            barehand_damage_expr: Seq::new(3, |i: int| self.barehand_damage_expr@[i]@),
            attack_debuff_mask: self.attack_debuff_mask,
            thief_skill: self.thief_skill,
            can_identify: self.can_identify,
            xl_for_dispell: self.xl_for_dispell,
            dispell_mask: self.dispell_mask,
            hp_expr: self.hp_expr@,
            xp_expr: self.xp_expr@,
            description: self.description@,
            inven_bonus: self.inven_bonus,
            cond_to_appear: self.cond_to_appear@,
        }
    }
}

impl DeepView for Class {
    type V = ClassV;

    open spec fn deep_view(&self) -> ClassV {
        self.view()
    }
}

// ----------------------------------------------------------------------
// sub-parsers
// ----------------------------------------------------------------------

/// Decodes a sex mask: decimal digits below 2, each setting its bit.
pub fn parse_sex_mask(s: &str) -> (r: Result<u8, FieldError>)
    ensures
        r == limited_mask_spec(s@, 2),
{
    let chars = chars_of(s);
    parse_limited_mask(chars.as_slice(), 2)
}

/// Decodes an alignment mask: decimal digits below 3, each setting its
/// bit.
pub fn parse_alignment_mask(s: &str) -> (r: Result<u8, FieldError>)
    ensures
        r == limited_mask_spec(s@, 3),
{
    let chars = chars_of(s);
    parse_limited_mask(chars.as_slice(), 3)
}

/// What the unarmed damage expression yields: exactly 3 comma-separated
/// sub-fields, copied verbatim.
pub open spec fn barehand_spec(s: Seq<char>) -> Result<Seq<Seq<char>>, FieldError> {
    let parts = comma_fields(s);
    if parts.len() != 3 {
        Err(FieldError::Arity { expected: 3, actual: parts.len() as u64 })
    } else {
        Ok(parts)
    }
}

/// Decodes the unarmed damage expression triple.
pub fn parse_barehand_damage_expr(s: &str) -> (r: Result<[String; 3], FieldError>)
    ensures
        match r {
            Ok(t) => barehand_spec(s@) == Ok::<Seq<Seq<char>>, FieldError>(
                Seq::new(3, |i: int| t@[i]@),
            ),
            Err(e) => barehand_spec(s@) == Err::<Seq<Seq<char>>, FieldError>(e),
        },
{
    let chars = chars_of(s);
    proof {
        reveal_strlit(",");
        assert(","@ =~= seq![',']);
    }
    let parts = split_str(chars.as_slice(), ",");
    if parts.len() != 3 {
        return Err(FieldError::Arity { expected: 3, actual: parts.len() as u64 });
    }
    let t = [
        string_from_chars(parts[0].as_slice()),
        string_from_chars(parts[1].as_slice()),
        string_from_chars(parts[2].as_slice()),
    ];
    proof {
        assert(Seq::new(3, |i: int| t@[i]@) =~= comma_fields(s@));
    }
    Ok(t)
}

/// What the class attack-debuff code yields: code 0 is no debuff, 1
/// knockout, 2 critical; any other code is outside the table.
pub open spec fn class_debuff_spec(s: Seq<char>) -> Result<DebuffMask, FieldError> {
    match parse_u8_spec(s) {
        Option::None => Err(FieldError::Number),
        Option::Some(v) => if v == 0 {
            Ok(DebuffMask { bits: 0 })
        } else if v == 1 {
            Ok(DebuffMask { bits: DEBUFF_KNOCKOUT })
        } else if v == 2 {
            Ok(DebuffMask { bits: DEBUFF_CRITICAL })
        } else {
            Err(FieldError::UnknownEnum { value: v })
        },
    }
}

/// Decodes the class attack-debuff code.
pub fn parse_attack_debuff_mask(s: &str) -> (r: Result<DebuffMask, FieldError>)
    ensures
        r == class_debuff_spec(s@),
{
    let chars = chars_of(s);
    parse_class_debuff_chars(chars.as_slice())
}

/// Decodes the class attack-debuff code from characters.
pub fn parse_class_debuff_chars(s: &[char]) -> (r: Result<DebuffMask, FieldError>)
    ensures
        r == class_debuff_spec(s@),
{
    match parse_u8_chars(s) {
        Option::None => Err(FieldError::Number),
        Option::Some(v) => {
            if v == 0 {
                Ok(DebuffMask::empty())
            } else if v == 1 {
                Ok(DebuffMask { bits: DEBUFF_KNOCKOUT })
            } else if v == 2 {
                Ok(DebuffMask { bits: DEBUFF_CRITICAL })
            } else {
                Err(FieldError::UnknownEnum { value: v })
            }
        },
    }
}

// ----------------------------------------------------------------------
// the record decoder
// ----------------------------------------------------------------------

/// What decoding one class record yields: exactly 21 `<>`-delimited
/// fields, converted in the source order (sex 2, alignment 3, stats 4,
/// unarmed damage 8, debuff code 9, thief skill 10, identify 11, dispel
/// level 12, dispel kinds 13, inventory bonus 18), the first failing
/// field deciding the error; a dispel level of 0 means no dispel.
pub open spec fn class_spec(id: u32, text: Seq<char>) -> Result<ClassV, FieldError> {
    let fs = angle_fields(text);
    if fs.len() != 21 {
        Err(FieldError::Arity { expected: 21, actual: fs.len() as u64 })
    } else if limited_mask_spec(fs[2], 2) is Err {
        Err(limited_mask_spec(fs[2], 2)->Err_0)
    } else if limited_mask_spec(fs[3], 3) is Err {
        Err(limited_mask_spec(fs[3], 3)->Err_0)
    } else if !u32_list_ok(fs[4]) {
        Err(FieldError::Number)
    } else if barehand_spec(fs[8]) is Err {
        Err(barehand_spec(fs[8])->Err_0)
    } else if class_debuff_spec(fs[9]) is Err {
        Err(class_debuff_spec(fs[9])->Err_0)
    } else if !(parse_i32_spec(fs[10]) is Some && parse_bool_spec(fs[11]) is Some
        && parse_u32_spec(fs[12]) is Some) {
        Err(FieldError::Number)
    } else if monster_kind_mask_spec(fs[13]) is Err {
        Err(monster_kind_mask_spec(fs[13])->Err_0)
    } else if parse_i32_spec(fs[18]) is None {
        Err(FieldError::Number)
    } else {
        let xl = parse_u32_spec(fs[12])->0;
        Ok(
            ClassV {
                id,
                name: fs[0],
                name_abbr: fs[1],
                sex_mask: limited_mask_spec(fs[2], 2)->Ok_0,
                alignment_mask: limited_mask_spec(fs[3], 3)->Ok_0,
                stats: u32_list_val(fs[4]),
                ac_expr: fs[5],
                hit_expr: fs[6],
                attack_count_expr: fs[7],
                barehand_damage_expr: barehand_spec(fs[8])->Ok_0,
                attack_debuff_mask: class_debuff_spec(fs[9])->Ok_0,
                thief_skill: parse_i32_spec(fs[10])->0,
                can_identify: parse_bool_spec(fs[11])->0,
                xl_for_dispell: if xl != 0 {
                    Option::Some(xl)
                } else {
                    Option::None
                },
                dispell_mask: monster_kind_mask_spec(fs[13])->Ok_0,
                hp_expr: fs[15],
                xp_expr: fs[16],
                description: fs[17],
                inven_bonus: parse_i32_spec(fs[18])->0,
                cond_to_appear: fs[20],
            },
        )
    }
}

/// Decodes one class record.
#[verifier::rlimit(50)]
pub fn parse(id: u32, text: &str) -> (r: Result<Class, FieldError>)
    ensures
        match r {
            Ok(cl) => class_spec(id, text@) == Ok::<ClassV, FieldError>(cl@),
            Err(e) => class_spec(id, text@) == Err::<ClassV, FieldError>(e),
        },
{
    let chars = chars_of(text);
    proof {
        reveal_strlit("<>");
        assert("<>"@ =~= seq!['<', '>']);
    }
    let fields = split_str(chars.as_slice(), "<>");
    if fields.len() != 21 {
        return Err(FieldError::Arity { expected: 21, actual: fields.len() as u64 });
    }
    let sex_mask = match parse_limited_mask(fields[2].as_slice(), 2) {
        Ok(m) => m,
        Err(e) => {
            return Err(e);
        },
    };
    let alignment_mask = match parse_limited_mask(fields[3].as_slice(), 3) {
        Ok(m) => m,
        Err(e) => {
            return Err(e);
        },
    };
    let stats = match parse_u32_list(fields[4].as_slice()) {
        Some(v) => v,
        None => {
            return Err(FieldError::Number);
        },
    };
    proof {
        reveal_strlit(",");
        assert(","@ =~= seq![',']);
    }
    let barehand_parts = split_str(fields[8].as_slice(), ",");
    if barehand_parts.len() != 3 {
        return Err(FieldError::Arity { expected: 3, actual: barehand_parts.len() as u64 });
    }
    let barehand_damage_expr = [
        string_from_chars(barehand_parts[0].as_slice()),
        string_from_chars(barehand_parts[1].as_slice()),
        string_from_chars(barehand_parts[2].as_slice()),
    ];
    let attack_debuff_mask = match parse_class_debuff_chars(fields[9].as_slice()) {
        Ok(m) => m,
        Err(e) => {
            return Err(e);
        },
    };
    let thief_skill = match parse_i32_chars(fields[10].as_slice()) {
        Some(v) => v,
        None => {
            return Err(FieldError::Number);
        },
    };
    let can_identify = match parse_bool_chars(fields[11].as_slice()) {
        Some(v) => v,
        None => {
            return Err(FieldError::Number);
        },
    };
    let xl = match parse_u32_chars(fields[12].as_slice()) {
        Some(v) => v,
        None => {
            return Err(FieldError::Number);
        },
    };
    let xl_for_dispell = if xl != 0 {
        Option::Some(xl)
    } else {
        Option::None
    };
    let dispell_mask = match parse_monster_kind_mask_chars(fields[13].as_slice()) {
        Ok(m) => m,
        Err(e) => {
            return Err(e);
        },
    };
    let inven_bonus = match parse_i32_chars(fields[18].as_slice()) {
        Some(v) => v,
        None => {
            return Err(FieldError::Number);
        },
    };
    let cl = Class {
        id,
        name: string_from_chars(fields[0].as_slice()),
        name_abbr: string_from_chars(fields[1].as_slice()),
        sex_mask,
        alignment_mask,
        stats,
        ac_expr: string_from_chars(fields[5].as_slice()),
        hit_expr: string_from_chars(fields[6].as_slice()),
        attack_count_expr: string_from_chars(fields[7].as_slice()),
        barehand_damage_expr,
        attack_debuff_mask,
        thief_skill,
        can_identify,
        xl_for_dispell,
        dispell_mask,
        hp_expr: string_from_chars(fields[15].as_slice()),
        xp_expr: string_from_chars(fields[16].as_slice()),
        description: string_from_chars(fields[17].as_slice()),
        inven_bonus,
        cond_to_appear: string_from_chars(fields[20].as_slice()),
    };
    proof {
        let fs = angle_fields(text@);
        assert(Seq::new(3, |i: int| cl.barehand_damage_expr@[i]@) =~= comma_fields(fs[8]));
        assert(cl@ == class_spec(id, text@)->Ok_0);
    }
    Ok(cl)
}

/// The views of a class sequence.
pub open spec fn class_views(v: Seq<Class>) -> Seq<ClassV> {
    v.map_values(|cl: Class| cl@)
}

/// The `Class` key prefix.
pub open spec fn class_prefix() -> Seq<char> {
    seq!['C', 'l', 'a', 's', 's']
}

/// A successful class run: `v` holds the decodings of `Class0`, `Class1`,
/// ... up to the first absent index.
pub open spec fn classes_run_ok(m: Map<Seq<char>, Seq<char>>, v: Seq<ClassV>) -> bool {
    &&& forall|j: int|
        0 <= j < v.len() ==> m.contains_key(#[trigger] seq_key(class_prefix(), j)) && class_spec(
            j as u32,
            m[seq_key(class_prefix(), j)],
        ) == Ok::<ClassV, FieldError>(v[j])
    &&& !m.contains_key(seq_key(class_prefix(), v.len() as int))
}

/// Entities before `id` decode, and entity `id` is the first to fail,
/// its error wrapped with the entity kind and id.
pub open spec fn classes_run_err_at(m: Map<Seq<char>, Seq<char>>, e: LoadError, id: int) -> bool {
    &&& 0 <= id <= u32::MAX
    &&& m.contains_key(seq_key(class_prefix(), id))
    &&& forall|j: int|
        0 <= j < id ==> m.contains_key(#[trigger] seq_key(class_prefix(), j)) && class_spec(
            j as u32,
            m[seq_key(class_prefix(), j)],
        ) is Ok
    &&& class_spec(id as u32, m[seq_key(class_prefix(), id)]) matches Err(fe) && e
        == LoadError::Entity { kind: EntityKind::Class, id: id as u32, err: fe }
}

/// A failed run: some entity is the first to fail.
pub open spec fn classes_run_err(m: Map<Seq<char>, Seq<char>>, e: LoadError) -> bool {
    exists|id: int| #[trigger] classes_run_err_at(m, e, id)
}

/// Decodes the whole class sequence, stopping at the first absent index
/// and aborting on the first malformed record.
pub fn classes_from_kvs(kvs: &Kvs) -> (r: Result<Vec<Class>, LoadError>)
    requires
        kvs.wf(),
        kvs@.dom().len() <= u32::MAX as nat,
    ensures
        match r {
            Ok(v) => classes_run_ok(kvs@, class_views(v@)),
            Err(e) => classes_run_err(kvs@, e),
        },
{
    let texts = kvs.iter_seq("Class");
    proof {
        reveal_strlit("Class");
        assert("Class"@ =~= class_prefix());
        kvs.lemma_dom_finite();
        lemma_run_bound(kvs@, class_prefix(), texts@.len() as int);
    }
    let n = texts.len();
    let mut out: Vec<Class> = Vec::new();
    let mut i: usize = 0;
    while i < n
        invariant
            0 <= i <= n == texts@.len(),
            n <= u32::MAX,
            i == out@.len(),
            forall|j: int|
                0 <= j < n ==> kvs@.contains_key(#[trigger] seq_key(class_prefix(), j))
                    && texts@[j]@ == kvs@[seq_key(class_prefix(), j)],
            !kvs@.contains_key(seq_key(class_prefix(), n as int)),
            forall|j: int|
                0 <= j < i ==> class_spec(j as u32, kvs@[#[trigger] seq_key(class_prefix(), j)])
                    == Ok::<ClassV, FieldError>(out@[j]@),
        decreases n - i,
    {
        let id = i as u32;
        match parse(id, texts[i].as_str()) {
            Ok(cl) => {
                out.push(cl);
            },
            Err(fe) => {
                let e = LoadError::Entity { kind: EntityKind::Class, id, err: fe };
                proof {
                    let w = i as int;
                    assert(class_spec(w as u32, kvs@[seq_key(class_prefix(), w)]) matches Err(f2)
                        && f2 == fe);
                    assert(classes_run_err_at(kvs@, e, w));
                }
                return Err(e);
            },
        }
        i = i + 1;
    }
    proof {
        assert(class_views(out@).len() == out@.len());
        assert(forall|j: int|
            0 <= j < out@.len() ==> class_views(out@)[j] == #[trigger] out@[j]@);
    }
    Ok(out)
}

} // verus!
