//! Character stats: the `Abi` entity sequence.

use crate::error::EntityKind;
use crate::error::FieldError;
use crate::error::LoadError;
use crate::kvs::lemma_run_bound;
use crate::kvs::seq_key;
use crate::kvs::Kvs;
use crate::text::angle_fields;
use crate::text::chars_of;
use crate::text::parse_bool_chars;
use crate::text::parse_bool_spec;
use crate::text::parse_i32_chars;
use crate::text::parse_i32_spec;
use crate::text::split_str;
use crate::text::string_from_chars;
use vstd::prelude::*;

verus! {

/// One character stat (strength, agility, ...), as the scenario defines
/// it.
#[derive(Debug)]
pub struct Stat {
    /// The stat's position in the `Abi` run.
    pub id: u32,
    /// The display name.
    pub name: String,
    /// The abbreviated name.
    pub name_abbr: String,
    /// The creation bonus per sex.
    pub sex_bonus: [i32; 2],
    /// Whether creation bonus points cannot be assigned to the stat.
    pub fixed_on_create: bool,
    /// Whether the stat is hidden.
    pub hide: bool,
}

/// The mathematical content of a [`Stat`].
pub struct StatV {
    pub id: u32,
    pub name: Seq<char>,
    pub name_abbr: Seq<char>,
    pub sex_bonus: Seq<i32>,
    pub fixed_on_create: bool,
    pub hide: bool,
}

impl View for Stat {
    type V = StatV;

    open spec fn view(&self) -> StatV {
        StatV {
            id: self.id,
            name: self.name@,
            name_abbr: self.name_abbr@,
            sex_bonus: self.sex_bonus@,
            fixed_on_create: self.fixed_on_create,
            hide: self.hide,
        }
    }
}

impl DeepView for Stat {
    type V = StatV;

    open spec fn deep_view(&self) -> StatV {
        self.view()
    }
}

/// What decoding one stat record yields: the record must split into
/// exactly 8 `<>`-delimited fields; fields 2 and 3 are the per-sex bonus
/// integers, fields 4 and 7 the creation-fixed and hidden booleans, and
/// any malformed scalar is a `Number` error.
pub open spec fn stat_spec(id: u32, text: Seq<char>) -> Result<StatV, FieldError> {
    let fs = angle_fields(text);
    if fs.len() != 8 {
        Err(FieldError::Arity { expected: 8, actual: fs.len() as u64 })
    } else if !(parse_i32_spec(fs[2]) is Some && parse_i32_spec(fs[3]) is Some && parse_bool_spec(
        fs[4],
    ) is Some && parse_bool_spec(fs[7]) is Some) {
        Err(FieldError::Number)
    } else {
        Ok(
            StatV {
                id,
                name: fs[0],
                name_abbr: fs[1],
                sex_bonus: seq![parse_i32_spec(fs[2])->0, parse_i32_spec(fs[3])->0],
                fixed_on_create: parse_bool_spec(fs[4])->0,
                hide: parse_bool_spec(fs[7])->0,
            },
        )
    }
}

/// Decodes one stat record.
pub fn parse(id: u32, text: &str) -> (r: Result<Stat, FieldError>)
    ensures
        match r {
            Ok(st) => stat_spec(id, text@) == Ok::<StatV, FieldError>(st@),
            Err(e) => stat_spec(id, text@) == Err::<StatV, FieldError>(e),
        },
{
    let chars = chars_of(text);
    proof {
        reveal_strlit("<>");
        assert("<>"@ =~= seq!['<', '>']);
    }
    let fields = split_str(chars.as_slice(), "<>");
    if fields.len() != 8 {
        return Err(FieldError::Arity { expected: 8, actual: fields.len() as u64 });
    }
    let b0 = match parse_i32_chars(fields[2].as_slice()) {
        Some(v) => v,
        None => {
            return Err(FieldError::Number);
        },
    };
    let b1 = match parse_i32_chars(fields[3].as_slice()) {
        Some(v) => v,
        None => {
            return Err(FieldError::Number);
        },
    };
    let fixed_on_create = match parse_bool_chars(fields[4].as_slice()) {
        Some(v) => v,
        None => {
            return Err(FieldError::Number);
        },
    };
    let hide = match parse_bool_chars(fields[7].as_slice()) {
        Some(v) => v,
        None => {
            return Err(FieldError::Number);
        },
    };
    let st = Stat {
        id,
        name: string_from_chars(fields[0].as_slice()),
        name_abbr: string_from_chars(fields[1].as_slice()),
        sex_bonus: [b0, b1],
        fixed_on_create,
        hide,
    };
    proof {
        assert(st.sex_bonus@ =~= seq![b0, b1]);
        assert(st@ == stat_spec(id, text@)->Ok_0);
    }
    Ok(st)
}

/// The views of a stat sequence.
pub open spec fn stat_views(v: Seq<Stat>) -> Seq<StatV> {
    v.map_values(|st: Stat| st@)
}

/// The `Abi` key prefix.
pub open spec fn abi_prefix() -> Seq<char> {
    seq!['A', 'b', 'i']
}

/// A successful stat run: `v` holds the decodings of `Abi0`, `Abi1`, ...
/// up to the first absent index.
pub open spec fn stats_run_ok(m: Map<Seq<char>, Seq<char>>, v: Seq<StatV>) -> bool {
    &&& forall|j: int|
        0 <= j < v.len() ==> m.contains_key(#[trigger] seq_key(abi_prefix(), j)) && stat_spec(
            j as u32,
            m[seq_key(abi_prefix(), j)],
        ) == Ok::<StatV, FieldError>(v[j])
    &&& !m.contains_key(seq_key(abi_prefix(), v.len() as int))
}

/// Entities before `id` decode, and entity `id` is the first to fail,
/// its error wrapped with the entity kind and id.
pub open spec fn stats_run_err_at(m: Map<Seq<char>, Seq<char>>, e: LoadError, id: int) -> bool {
    &&& 0 <= id <= u32::MAX
    &&& m.contains_key(seq_key(abi_prefix(), id))
    &&& forall|j: int|
        0 <= j < id ==> m.contains_key(#[trigger] seq_key(abi_prefix(), j)) && stat_spec(
            j as u32,
            m[seq_key(abi_prefix(), j)],
        ) is Ok
    &&& stat_spec(id as u32, m[seq_key(abi_prefix(), id)]) matches Err(fe) && e
        == LoadError::Entity { kind: EntityKind::Stat, id: id as u32, err: fe }
}

/// A failed run: some entity is the first to fail.
pub open spec fn stats_run_err(m: Map<Seq<char>, Seq<char>>, e: LoadError) -> bool {
    exists|id: int| #[trigger] stats_run_err_at(m, e, id)
}

/// Decodes the whole stat sequence, stopping at the first absent index
/// and aborting on the first malformed record.
pub fn stats_from_kvs(kvs: &Kvs) -> (r: Result<Vec<Stat>, LoadError>)
    requires
        kvs.wf(),
        kvs@.dom().len() <= u32::MAX as nat,
    ensures
        match r {
            Ok(v) => stats_run_ok(kvs@, stat_views(v@)),
            Err(e) => stats_run_err(kvs@, e),
        },
{
    let texts = kvs.iter_seq("Abi");
    proof {
        reveal_strlit("Abi");
        assert("Abi"@ =~= abi_prefix());
        kvs.lemma_dom_finite();
        lemma_run_bound(kvs@, abi_prefix(), texts@.len() as int);
    }
    let n = texts.len();
    let mut out: Vec<Stat> = Vec::new();
    let mut i: usize = 0;
    while i < n
        invariant
            0 <= i <= n == texts@.len(),
            n <= u32::MAX,
            i == out@.len(),
            forall|j: int|
                0 <= j < n ==> kvs@.contains_key(#[trigger] seq_key(abi_prefix(), j))
                    && texts@[j]@ == kvs@[seq_key(abi_prefix(), j)],
            !kvs@.contains_key(seq_key(abi_prefix(), n as int)),
            forall|j: int|
                0 <= j < i ==> stat_spec(j as u32, kvs@[#[trigger] seq_key(abi_prefix(), j)])
                    == Ok::<StatV, FieldError>(out@[j]@),
        decreases n - i,
    {
        let id = i as u32;
        match parse(id, texts[i].as_str()) {
            Ok(st) => {
                out.push(st);
            },
            Err(fe) => {
                let e = LoadError::Entity { kind: EntityKind::Stat, id, err: fe };
                proof {
                    let w = i as int;
                    assert(stat_spec(w as u32, kvs@[seq_key(abi_prefix(), w)]) matches Err(f2)
                        && f2 == fe);
                    assert(stats_run_err_at(kvs@, e, w));
                }
                return Err(e);
            },
        }
        i = i + 1;
    }
    proof {
        assert(stat_views(out@).len() == out@.len());
        assert(forall|j: int|
            0 <= j < out@.len() ==> stat_views(out@)[j] == #[trigger] out@[j]@);
    }
    Ok(out)
}

} // verus!
