//! Races: the `Race` entity sequence.

use crate::error::EntityKind;
use crate::error::FieldError;
use crate::error::LoadError;
use crate::kvs::lemma_run_bound;
use crate::kvs::seq_key;
use crate::kvs::Kvs;
use crate::masks::ResistMask;
use crate::text::angle_fields;
use crate::text::chars_of;
use crate::text::parse_i32_chars;
use crate::text::parse_i32_spec;
use crate::text::parse_u32_chars;
use crate::text::parse_u32_list;
use crate::text::parse_u32_spec;
use crate::text::split_str;
use crate::text::string_from_chars;
use crate::text::u32_list_ok;
use crate::text::u32_list_val;
use crate::util::parse_resist_mask_chars;
use crate::util::resist_mask_spec;
use vstd::prelude::*;

verus! {

/// One playable race, as the scenario defines it.
#[derive(Debug)]
pub struct Race {
    /// The race's position in the `Race` run.
    pub id: u32,
    /// The display name.
    pub name: String,
    /// The abbreviated name.
    pub name_abbr: String,
    /// The ordered initial stat values.
    pub stats: Vec<u32>,
    /// The lifetime in years.
    pub lifetime: u32,
    /// The armor-class modifier.
    pub ac: i32,
    /// The healing rate.
    pub healing: i32,
    /// The spell-cancel rate.
    pub spell_cancel: i32,
    /// The resistance flag-set.
    pub resist_mask: ResistMask,
    /// The free-form appearance-condition expression.
    pub cond_to_appear: String,
    /// The description text.
    pub description: String,
    /// The inventory-slot bonus.
    pub inven_bonus: i32,
}

/// The mathematical content of a [`Race`].
pub struct RaceV {
    pub id: u32,
    pub name: Seq<char>,
    pub name_abbr: Seq<char>,
    pub stats: Seq<u32>,
    pub lifetime: u32,
    pub ac: i32,
    pub healing: i32,
    pub spell_cancel: i32,
    pub resist_mask: ResistMask,
    pub cond_to_appear: Seq<char>,
    pub description: Seq<char>,
    pub inven_bonus: i32,
}

impl View for Race {
    type V = RaceV;

    open spec fn view(&self) -> RaceV {
        RaceV {
            id: self.id,
            name: self.name@,
            name_abbr: self.name_abbr@,
            stats: self.stats@,
            lifetime: self.lifetime,
            ac: self.ac,
            healing: self.healing,
            spell_cancel: self.spell_cancel,
            resist_mask: self.resist_mask,
            cond_to_appear: self.cond_to_appear@,
            description: self.description@,
            inven_bonus: self.inven_bonus,
        }
    }
}

impl DeepView for Race {
    type V = RaceV;

    open spec fn deep_view(&self) -> RaceV {
        self.view()
    }
}

/// What decoding one race record yields: exactly 14 `<>`-delimited
/// fields; field 2 is the comma-separated stat list, fields 3-6 scalar
/// numbers, field 9 the generic resistance flag-set, field 13 the
/// inventory bonus; fields 0, 1, 10 and 11 are copied verbatim.
pub open spec fn race_spec(id: u32, text: Seq<char>) -> Result<RaceV, FieldError> {
    let fs = angle_fields(text);
    if fs.len() != 14 {
        Err(FieldError::Arity { expected: 14, actual: fs.len() as u64 })
    } else if !(u32_list_ok(fs[2]) && parse_u32_spec(fs[3]) is Some && parse_i32_spec(
        fs[4],
    ) is Some && parse_i32_spec(fs[5]) is Some && parse_i32_spec(fs[6]) is Some) {
        Err(FieldError::Number)
    } else if resist_mask_spec(fs[9]) is Err {
        Err(resist_mask_spec(fs[9])->Err_0)
    } else if parse_i32_spec(fs[13]) is None {
        Err(FieldError::Number)
    } else {
        Ok(
            RaceV {
                id,
                name: fs[0],
                name_abbr: fs[1],
                stats: u32_list_val(fs[2]),
                lifetime: parse_u32_spec(fs[3])->0,
                ac: parse_i32_spec(fs[4])->0,
                healing: parse_i32_spec(fs[5])->0,
                spell_cancel: parse_i32_spec(fs[6])->0,
                resist_mask: resist_mask_spec(fs[9])->Ok_0,
                cond_to_appear: fs[10],
                description: fs[11],
                inven_bonus: parse_i32_spec(fs[13])->0,
            },
        )
    }
}

/// Decodes one race record.
pub fn parse(id: u32, text: &str) -> (r: Result<Race, FieldError>)
    ensures
        match r {
            Ok(rc) => race_spec(id, text@) == Ok::<RaceV, FieldError>(rc@),
            Err(e) => race_spec(id, text@) == Err::<RaceV, FieldError>(e),
        },
{
    let chars = chars_of(text);
    proof {
        reveal_strlit("<>");
        assert("<>"@ =~= seq!['<', '>']);
    }
    let fields = split_str(chars.as_slice(), "<>");
    if fields.len() != 14 {
        return Err(FieldError::Arity { expected: 14, actual: fields.len() as u64 });
    }
    let stats = match parse_u32_list(fields[2].as_slice()) {
        Some(v) => v,
        None => {
            return Err(FieldError::Number);
        },
    };
    let lifetime = match parse_u32_chars(fields[3].as_slice()) {
        Some(v) => v,
        None => {
            return Err(FieldError::Number);
        },
    };
    let ac = match parse_i32_chars(fields[4].as_slice()) {
        Some(v) => v,
        None => {
            return Err(FieldError::Number);
        },
    };
    let healing = match parse_i32_chars(fields[5].as_slice()) {
        Some(v) => v,
        None => {
            return Err(FieldError::Number);
        },
    };
    let spell_cancel = match parse_i32_chars(fields[6].as_slice()) {
        Some(v) => v,
        None => {
            return Err(FieldError::Number);
        },
    };
    let resist_mask = match parse_resist_mask_chars(fields[9].as_slice()) {
        Ok(m) => m,
        Err(e) => {
            return Err(e);
        },
    };
    let inven_bonus = match parse_i32_chars(fields[13].as_slice()) {
        Some(v) => v,
        None => {
            return Err(FieldError::Number);
        },
    };
    let rc = Race {
        id,
        name: string_from_chars(fields[0].as_slice()),
        name_abbr: string_from_chars(fields[1].as_slice()),
        stats,
        lifetime,
        ac,
        healing,
        spell_cancel,
        resist_mask,
        cond_to_appear: string_from_chars(fields[10].as_slice()),
        description: string_from_chars(fields[11].as_slice()),
        inven_bonus,
    };
    proof {
        assert(rc@ == race_spec(id, text@)->Ok_0);
    }
    Ok(rc)
}

/// The views of a race sequence.
pub open spec fn race_views(v: Seq<Race>) -> Seq<RaceV> {
    v.map_values(|rc: Race| rc@)
}

/// The `Race` key prefix.
pub open spec fn race_prefix() -> Seq<char> {
    seq!['R', 'a', 'c', 'e']
}

/// A successful race run: `v` holds the decodings of `Race0`, `Race1`,
/// ... up to the first absent index.
pub open spec fn races_run_ok(m: Map<Seq<char>, Seq<char>>, v: Seq<RaceV>) -> bool {
    &&& forall|j: int|
        0 <= j < v.len() ==> m.contains_key(#[trigger] seq_key(race_prefix(), j)) && race_spec(
            j as u32,
            m[seq_key(race_prefix(), j)],
        ) == Ok::<RaceV, FieldError>(v[j])
    &&& !m.contains_key(seq_key(race_prefix(), v.len() as int))
}

/// Entities before `id` decode, and entity `id` is the first to fail,
/// its error wrapped with the entity kind and id.
pub open spec fn races_run_err_at(m: Map<Seq<char>, Seq<char>>, e: LoadError, id: int) -> bool {
    &&& 0 <= id <= u32::MAX
    &&& m.contains_key(seq_key(race_prefix(), id))
    &&& forall|j: int|
        0 <= j < id ==> m.contains_key(#[trigger] seq_key(race_prefix(), j)) && race_spec(
            j as u32,
            m[seq_key(race_prefix(), j)],
        ) is Ok
    &&& race_spec(id as u32, m[seq_key(race_prefix(), id)]) matches Err(fe) && e
        == LoadError::Entity { kind: EntityKind::Race, id: id as u32, err: fe }
}

/// A failed run: some entity is the first to fail.
pub open spec fn races_run_err(m: Map<Seq<char>, Seq<char>>, e: LoadError) -> bool {
    exists|id: int| #[trigger] races_run_err_at(m, e, id)
}

/// Decodes the whole race sequence, stopping at the first absent index
/// and aborting on the first malformed record.
pub fn races_from_kvs(kvs: &Kvs) -> (r: Result<Vec<Race>, LoadError>)
    requires
        kvs.wf(),
        kvs@.dom().len() <= u32::MAX as nat,
    ensures
        match r {
            Ok(v) => races_run_ok(kvs@, race_views(v@)),
            Err(e) => races_run_err(kvs@, e),
        },
{
    let texts = kvs.iter_seq("Race");
    proof {
        reveal_strlit("Race");
        assert("Race"@ =~= race_prefix());
        kvs.lemma_dom_finite();
        lemma_run_bound(kvs@, race_prefix(), texts@.len() as int);
    }
    let n = texts.len();
    let mut out: Vec<Race> = Vec::new();
    let mut i: usize = 0;
    while i < n
        invariant
            0 <= i <= n == texts@.len(),
            n <= u32::MAX,
            i == out@.len(),
            forall|j: int|
                0 <= j < n ==> kvs@.contains_key(#[trigger] seq_key(race_prefix(), j))
                    && texts@[j]@ == kvs@[seq_key(race_prefix(), j)],
            !kvs@.contains_key(seq_key(race_prefix(), n as int)),
            forall|j: int|
                0 <= j < i ==> race_spec(j as u32, kvs@[#[trigger] seq_key(race_prefix(), j)])
                    == Ok::<RaceV, FieldError>(out@[j]@),
        decreases n - i,
    {
        let id = i as u32;
        match parse(id, texts[i].as_str()) {
            Ok(rc) => {
                out.push(rc);
            },
            Err(fe) => {
                let e = LoadError::Entity { kind: EntityKind::Race, id, err: fe };
                proof {
                    let w = i as int;
                    assert(race_spec(w as u32, kvs@[seq_key(race_prefix(), w)]) matches Err(f2)
                        && f2 == fe);
                    assert(races_run_err_at(kvs@, e, w));
                }
                return Err(e);
            },
        }
        i = i + 1;
    }
    proof {
        assert(race_views(out@).len() == out@.len());
        assert(forall|j: int|
            0 <= j < out@.len() ==> race_views(out@)[j] == #[trigger] out@[j]@);
    }
    Ok(out)
}

} // verus!
