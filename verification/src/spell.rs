//! Spell realms and spells: the `SpellKind` entity sequence.
//!
//! A realm record nests levels (separated by `<-->`) and, within a level,
//! spells (separated by `<++>`); a spell is an ordinary `<>`-delimited
//! record.  The last realm is monster-only exactly when the global
//! `ExclusiveUseOfMonsters` toggle is set.

use crate::error::EntityKind;
use crate::error::FieldError;
use crate::error::LoadError;
use crate::error::MandatoryKey;
use crate::kvs::lemma_run_bound;
use crate::kvs::seq_key;
use crate::kvs::Kvs;
use crate::text::angle_fields;
use crate::text::chars_of;
use crate::text::parse_bool_chars;
use crate::text::parse_bool_spec;
use crate::text::parse_u32_chars;
use crate::text::parse_u32_spec;
use crate::text::split_spec;
use crate::text::split_str;
use crate::text::string_from_chars;
use crate::text::trim_chars;
use crate::text::trim_spec;
use vstd::prelude::*;

verus! {

/// One spell.
#[derive(Debug)]
pub struct Spell {
    /// The display name.
    pub name: String,
    /// The description text.
    pub description: String,
    /// The casting cost in magic points.
    pub cost_mp: u32,
    /// Whether the spell can be cast while silenced.
    pub ignore_silence: bool,
    /// Whether the spell is learned outside normal level-up.
    pub extra_learn: bool,
}

/// The mathematical content of a [`Spell`].
pub struct SpellV {
    pub name: Seq<char>,
    pub description: Seq<char>,
    pub cost_mp: u32,
    pub ignore_silence: bool,
    pub extra_learn: bool,
}

impl View for Spell {
    type V = SpellV;

    open spec fn view(&self) -> SpellV {
        SpellV {
            name: self.name@,
            description: self.description@,
            cost_mp: self.cost_mp,
            ignore_silence: self.ignore_silence,
            extra_learn: self.extra_learn,
        }
    }
}

impl DeepView for Spell {
    type V = SpellV;

    open spec fn deep_view(&self) -> SpellV {
        self.view()
    }
}

/// One spell realm: a name and one spell list per level.
#[derive(Debug)]
pub struct SpellRealm {
    /// The realm's position in the `SpellKind` run.
    pub id: u32,
    /// The display name.
    pub name: String,
    /// How many levels every realm has (the global `SpellLvNum`).
    pub level_count: u32,
    /// The spells of each level, in level order.
    pub spells_of_levels: Vec<Vec<Spell>>,
    /// Whether the realm is for monsters only (true only for the last
    /// realm, and only when the global toggle is set).
    pub is_only_for_monster: bool,
}

/// The mathematical content of a [`SpellRealm`].
pub struct SpellRealmV {
    pub id: u32,
    pub name: Seq<char>,
    pub level_count: u32,
    pub spells_of_levels: Seq<Seq<SpellV>>,
    pub is_only_for_monster: bool,
}

/// The views of a spell sequence.
pub open spec fn spell_views(v: Seq<Spell>) -> Seq<SpellV> {
    v.map_values(|sp: Spell| sp@)
}

/// The views of a level sequence.
pub open spec fn level_views(v: Seq<Vec<Spell>>) -> Seq<Seq<SpellV>> {
    v.map_values(|l: Vec<Spell>| spell_views(l@))
}

impl View for SpellRealm {
    type V = SpellRealmV;

    open spec fn view(&self) -> SpellRealmV {
        SpellRealmV {
            id: self.id,
            name: self.name@,
            level_count: self.level_count,
            spells_of_levels: level_views(self.spells_of_levels@),
            is_only_for_monster: self.is_only_for_monster,
        }
    }
}

impl DeepView for SpellRealm {
    type V = SpellRealmV;

    open spec fn deep_view(&self) -> SpellRealmV {
        self.view()
    }
}

// ----------------------------------------------------------------------
// one spell
// ----------------------------------------------------------------------

/// What decoding one spell record yields: exactly 8 `<>`-delimited
/// fields; field 6 is the MP cost, field 7 the silence flag, field 5 the
/// extra-learn flag; fields 0 and 2 are copied verbatim.
pub open spec fn spell_spec(text: Seq<char>) -> Result<SpellV, FieldError> {
    let fs = angle_fields(text);
    if fs.len() != 8 {
        Err(FieldError::Arity { expected: 8, actual: fs.len() as u64 })
    } else if !(parse_u32_spec(fs[6]) is Some && parse_bool_spec(fs[7]) is Some && parse_bool_spec(
        fs[5],
    ) is Some) {
        Err(FieldError::Number)
    } else {
        Ok(
            SpellV {
                name: fs[0],
                description: fs[2],
                cost_mp: parse_u32_spec(fs[6])->0,
                ignore_silence: parse_bool_spec(fs[7])->0,
                extra_learn: parse_bool_spec(fs[5])->0,
            },
        )
    }
}

/// Decodes one spell record from characters.
fn parse_spell_chars(s: &[char]) -> (r: Result<Spell, FieldError>)
    ensures
        match r {
            Ok(sp) => spell_spec(s@) == Ok::<SpellV, FieldError>(sp@),
            Err(e) => spell_spec(s@) == Err::<SpellV, FieldError>(e),
        },
{
    proof {
        reveal_strlit("<>");
        assert("<>"@ =~= seq!['<', '>']);
    }
    let fields = split_str(s, "<>");
    if fields.len() != 8 {
        return Err(FieldError::Arity { expected: 8, actual: fields.len() as u64 });
    }
    let cost_mp = match parse_u32_chars(fields[6].as_slice()) {
        Some(v) => v,
        None => {
            return Err(FieldError::Number);
        },
    };
    let ignore_silence = match parse_bool_chars(fields[7].as_slice()) {
        Some(v) => v,
        None => {
            return Err(FieldError::Number);
        },
    };
    let extra_learn = match parse_bool_chars(fields[5].as_slice()) {
        Some(v) => v,
        None => {
            return Err(FieldError::Number);
        },
    };
    let sp = Spell {
        name: string_from_chars(fields[0].as_slice()),
        description: string_from_chars(fields[2].as_slice()),
        cost_mp,
        ignore_silence,
        extra_learn,
    };
    proof {
        assert(sp@ == spell_spec(s@)->Ok_0);
    }
    Ok(sp)
}

/// Decodes one spell record.
pub fn parse_spell(text: &str) -> (r: Result<Spell, FieldError>)
    ensures
        match r {
            Ok(sp) => spell_spec(text@) == Ok::<SpellV, FieldError>(sp@),
            Err(e) => spell_spec(text@) == Err::<SpellV, FieldError>(e),
        },
{
    let chars = chars_of(text);
    parse_spell_chars(chars.as_slice())
}

// ----------------------------------------------------------------------
// one level
// ----------------------------------------------------------------------

/// The delimiter between the spells of one level.
pub open spec fn spell_delim() -> Seq<char> {
    seq!['<', '+', '+', '>']
}

/// What decoding a sequence of spell records yields: each in order, the
/// first failure aborting the level.
pub open spec fn spells_fold(parts: Seq<Seq<char>>) -> Result<Seq<SpellV>, FieldError>
    decreases parts.len(),
{
    if parts.len() == 0 {
        Ok(Seq::empty())
    } else {
        match spells_fold(parts.drop_last()) {
            Err(e) => Err(e),
            Ok(v) => match spell_spec(parts.last()) {
                Err(e) => Err(e),
                Ok(sp) => Ok(v.push(sp)),
            },
        }
    }
}

/// What decoding one level's text yields: the text is trimmed; an empty
/// level holds no spells; otherwise the `<++>`-separated records are
/// decoded in order.
pub open spec fn level_spec(s: Seq<char>) -> Result<Seq<SpellV>, FieldError> {
    let t = trim_spec(s);
    if t.len() == 0 {
        Ok(Seq::empty())
    } else {
        spells_fold(split_spec(t, spell_delim()))
    }
}

/// Decodes one level's spell list.
pub fn parse_spells_of_level(text: &str) -> (r: Result<Vec<Spell>, FieldError>)
    ensures
        match r {
            Ok(v) => level_spec(text@) == Ok::<Seq<SpellV>, FieldError>(spell_views(v@)),
            Err(e) => level_spec(text@) == Err::<Seq<SpellV>, FieldError>(e),
        },
{
    let chars = chars_of(text);
    let t = trim_chars(chars.as_slice());
    let mut out: Vec<Spell> = Vec::new();
    if t.len() == 0 {
        proof {
            assert(spell_views(out@) =~= Seq::<SpellV>::empty());
        }
        return Ok(out);
    }
    proof {
        reveal_strlit("<++>");
        assert("<++>"@ =~= spell_delim());
    }
    let parts = split_str(t.as_slice(), "<++>");
    let ghost pviews = split_spec(t@, spell_delim());
    let n = parts.len();
    let mut i: usize = 0;
    proof {
        assert(pviews.take(0) =~= Seq::<Seq<char>>::empty());
        assert(spell_views(out@) =~= Seq::<SpellV>::empty());
    }
    while i < n
        invariant
            0 <= i <= n == parts@.len(),
            n == pviews.len(),
            pviews == split_spec(trim_spec(text@), spell_delim()),
            trim_spec(text@).len() != 0,
            forall|j: int| 0 <= j < n ==> parts@[j]@ == #[trigger] pviews[j],
            spells_fold(pviews.take(i as int)) == Ok::<Seq<SpellV>, FieldError>(spell_views(out@)),
        decreases n - i,
    {
        let ghost prefix1 = pviews.take(i + 1);
        proof {
            assert(prefix1.drop_last() =~= pviews.take(i as int));
            assert(prefix1.last() == pviews[i as int]);
        }
        match parse_spell_chars(parts[i].as_slice()) {
            Ok(sp) => {
                let ghost old_views = spell_views(out@);
                let ghost spv = sp@;
                out.push(sp);
                proof {
                    assert(spell_views(out@) =~= old_views.push(spv));
                }
            },
            Err(e) => {
                proof {
                    lemma_spells_fold_err_extends(pviews, i + 1);
                }
                return Err(e);
            },
        }
        i = i + 1;
    }
    proof {
        assert(pviews.take(n as int) =~= pviews);
    }
    Ok(out)
}

/// Once a prefix of the records fails, the whole fold fails with the same
/// error.
proof fn lemma_spells_fold_err_extends(parts: Seq<Seq<char>>, i: int)
    requires
        0 <= i <= parts.len(),
        spells_fold(parts.take(i)) is Err,
    ensures
        spells_fold(parts) == spells_fold(parts.take(i)),
    decreases parts.len() - i,
{
    if i < parts.len() {
        let next = parts.take(i + 1);
        assert(next.drop_last() =~= parts.take(i));
        assert(spells_fold(next) == spells_fold(parts.take(i)));
        lemma_spells_fold_err_extends(parts, i + 1);
    } else {
        assert(parts.take(i) =~= parts);
    }
}

// ----------------------------------------------------------------------
// one realm
// ----------------------------------------------------------------------

/// The delimiter between the levels of a realm record.
pub open spec fn level_delim() -> Seq<char> {
    seq!['<', '-', '-', '>']
}

/// What decoding a sequence of level texts yields, in order.
pub open spec fn levels_fold(parts: Seq<Seq<char>>) -> Result<Seq<Seq<SpellV>>, FieldError>
    decreases parts.len(),
{
    if parts.len() == 0 {
        Ok(Seq::empty())
    } else {
        match levels_fold(parts.drop_last()) {
            Err(e) => Err(e),
            Ok(v) => match level_spec(parts.last()) {
                Err(e) => Err(e),
                Ok(l) => Ok(v.push(l)),
            },
        }
    }
}

proof fn lemma_levels_fold_err_extends(parts: Seq<Seq<char>>, i: int)
    requires
        0 <= i <= parts.len(),
        levels_fold(parts.take(i)) is Err,
    ensures
        levels_fold(parts) == levels_fold(parts.take(i)),
    decreases parts.len() - i,
{
    if i < parts.len() {
        let next = parts.take(i + 1);
        assert(next.drop_last() =~= parts.take(i));
        assert(levels_fold(next) == levels_fold(parts.take(i)));
        lemma_levels_fold_err_extends(parts, i + 1);
    } else {
        assert(parts.take(i) =~= parts);
    }
}

/// What decoding one realm record yields: the record splits on `<-->`
/// into the realm name followed by exactly `level_count` level texts;
/// the monster-only flag is handed in by the aggregation, independent of
/// the record's own text.
pub open spec fn realm_spec(level_count: u32, is_only_for_monster: bool, id: u32, text: Seq<char>) -> Result<
    SpellRealmV,
    FieldError,
> {
    let fs = split_spec(text, level_delim());
    if fs.len() != level_count + 1 {
        Err(FieldError::Arity { expected: (level_count as u64 + 1) as u64, actual: fs.len() as u64 })
    } else {
        match levels_fold(fs.skip(1)) {
            Err(e) => Err(e),
            Ok(levels) => Ok(
                SpellRealmV {
                    id,
                    name: fs[0],
                    level_count,
                    spells_of_levels: levels,
                    is_only_for_monster,
                },
            ),
        }
    }
}

/// Decodes one realm record.
pub fn parse(level_count: u32, is_only_for_monster: bool, id: u32, text: &str) -> (r: Result<
    SpellRealm,
    FieldError,
>)
    ensures
        match r {
            Ok(sr) => realm_spec(level_count, is_only_for_monster, id, text@) == Ok::<
                SpellRealmV,
                FieldError,
            >(sr@),
            Err(e) => realm_spec(level_count, is_only_for_monster, id, text@) == Err::<
                SpellRealmV,
                FieldError,
            >(e),
        },
{
    let chars = chars_of(text);
    proof {
        reveal_strlit("<-->");
        assert("<-->"@ =~= level_delim());
    }
    let fields = split_str(chars.as_slice(), "<-->");
    let ghost fs = split_spec(text@, level_delim());
    if fields.len() as u64 != level_count as u64 + 1 {
        return Err(
            FieldError::Arity { expected: level_count as u64 + 1, actual: fields.len() as u64 },
        );
    }
    let ghost tail = fs.skip(1);
    let n = fields.len();
    let mut levels: Vec<Vec<Spell>> = Vec::new();
    let mut i: usize = 1;
    proof {
        assert(tail.take(0) =~= Seq::<Seq<char>>::empty());
        assert(level_views(levels@) =~= Seq::<Seq<SpellV>>::empty());
    }
    while i < n
        invariant
            1 <= i <= n == fields@.len(),
            n == fs.len(),
            fs == split_spec(text@, level_delim()),
            fs.len() == level_count + 1,
            tail == fs.skip(1),
            forall|j: int| 0 <= j < n ==> fields@[j]@ == #[trigger] fs[j],
            levels@.len() == i - 1,
            levels_fold(tail.take(i - 1)) == Ok::<Seq<Seq<SpellV>>, FieldError>(
                level_views(levels@),
            ),
        decreases n - i,
    {
        let ghost prefix1 = tail.take(i as int);
        proof {
            assert(prefix1.drop_last() =~= tail.take(i - 1));
            assert(prefix1.last() == tail[i - 1]);
            assert(tail[i - 1] == fs[i as int]);
        }
        match parse_spells_of_level_chars(fields[i].as_slice()) {
            Ok(l) => {
                let ghost old_views = level_views(levels@);
                let ghost lv = spell_views(l@);
                levels.push(l);
                proof {
                    assert(level_views(levels@) =~= old_views.push(lv));
                }
            },
            Err(e) => {
                proof {
                    lemma_levels_fold_err_extends(tail, i as int);
                }
                return Err(e);
            },
        }
        i = i + 1;
    }
    proof {
        assert(tail.take(n - 1) =~= tail);
    }
    let sr = SpellRealm {
        id,
        name: string_from_chars(fields[0].as_slice()),
        level_count,
        spells_of_levels: levels,
        is_only_for_monster,
    };
    proof {
        assert(sr@ == realm_spec(level_count, is_only_for_monster, id, text@)->Ok_0);
    }
    Ok(sr)
}

/// Decodes one level's spell list from characters.
fn parse_spells_of_level_chars(s: &[char]) -> (r: Result<Vec<Spell>, FieldError>)
    ensures
        match r {
            Ok(v) => level_spec(s@) == Ok::<Seq<SpellV>, FieldError>(spell_views(v@)),
            Err(e) => level_spec(s@) == Err::<Seq<SpellV>, FieldError>(e),
        },
{
    let text = string_from_chars(s);
    parse_spells_of_level(text.as_str())
}

// ----------------------------------------------------------------------
// the realm sequence
// ----------------------------------------------------------------------

/// The `SpellKind` key prefix.
pub open spec fn spell_kind_prefix() -> Seq<char> {
    seq!['S', 'p', 'e', 'l', 'l', 'K', 'i', 'n', 'd']
}

/// The `SpellLvNum` key.
pub open spec fn lvnum_key() -> Seq<char> {
    seq!['S', 'p', 'e', 'l', 'l', 'L', 'v', 'N', 'u', 'm']
}

/// The `ExclusiveUseOfMonsters` key.
pub open spec fn excl_key() -> Seq<char> {
    seq![
        'E',
        'x',
        'c',
        'l',
        'u',
        's',
        'i',
        'v',
        'e',
        'U',
        's',
        'e',
        'O',
        'f',
        'M',
        'o',
        'n',
        's',
        't',
        'e',
        'r',
        's',
    ]
}

/// Whether the two global spell scalars are present and well-formed.
pub open spec fn spell_scalars_ok(m: Map<Seq<char>, Seq<char>>) -> bool {
    &&& m.contains_key(lvnum_key())
    &&& parse_u32_spec(m[lvnum_key()]) is Some
    &&& m.contains_key(excl_key())
    &&& parse_bool_spec(m[excl_key()]) is Some
}

/// The error a malformed or absent global spell scalar yields, reading
/// `SpellLvNum` before `ExclusiveUseOfMonsters`.
pub open spec fn spell_scalars_err(m: Map<Seq<char>, Seq<char>>, e: LoadError) -> bool {
    if !m.contains_key(lvnum_key()) {
        e == LoadError::MissingKey(MandatoryKey::SpellLvNum)
    } else if parse_u32_spec(m[lvnum_key()]) is None {
        e == LoadError::BadScalar(MandatoryKey::SpellLvNum)
    } else if !m.contains_key(excl_key()) {
        e == LoadError::MissingKey(MandatoryKey::ExclusiveUseOfMonsters)
    } else if parse_bool_spec(m[excl_key()]) is None {
        e == LoadError::BadScalar(MandatoryKey::ExclusiveUseOfMonsters)
    } else {
        false
    }
}

/// The global level count.
pub open spec fn realm_level_count(m: Map<Seq<char>, Seq<char>>) -> u32 {
    parse_u32_spec(m[lvnum_key()])->0
}

/// The global monster-only toggle.
pub open spec fn realm_exclusive(m: Map<Seq<char>, Seq<char>>) -> bool {
    parse_bool_spec(m[excl_key()])->0
}

/// The views of a realm sequence.
pub open spec fn realm_views(v: Seq<SpellRealm>) -> Seq<SpellRealmV> {
    v.map_values(|sr: SpellRealm| sr@)
}

/// A successful realm run: the scalars are well-formed and `v` holds the
/// decodings of `SpellKind0`, `SpellKind1`, ... up to the first absent
/// index, the last realm flagged monster-only exactly when the global
/// toggle is set.
pub open spec fn realms_run_ok(m: Map<Seq<char>, Seq<char>>, v: Seq<SpellRealmV>) -> bool {
    &&& spell_scalars_ok(m)
    &&& forall|j: int|
        0 <= j < v.len() ==> m.contains_key(#[trigger] seq_key(spell_kind_prefix(), j))
            && realm_spec(
            realm_level_count(m),
            realm_exclusive(m) && j == v.len() - 1,
            j as u32,
            m[seq_key(spell_kind_prefix(), j)],
        ) == Ok::<SpellRealmV, FieldError>(v[j])
    &&& !m.contains_key(seq_key(spell_kind_prefix(), v.len() as int))
}

/// Realms before `id` decode, and realm `id` is the first to fail, its
/// error wrapped with the entity kind and id.
pub open spec fn realms_run_err_at(m: Map<Seq<char>, Seq<char>>, e: LoadError, id: int) -> bool {
    &&& 0 <= id <= u32::MAX
    &&& m.contains_key(seq_key(spell_kind_prefix(), id))
    &&& forall|j: int|
        0 <= j < id ==> m.contains_key(#[trigger] seq_key(spell_kind_prefix(), j)) && realm_spec(
            realm_level_count(m),
            false,
            j as u32,
            m[seq_key(spell_kind_prefix(), j)],
        ) is Ok
    &&& realm_spec(
        realm_level_count(m),
        realm_exclusive(m) && !m.contains_key(seq_key(spell_kind_prefix(), id + 1)),
        id as u32,
        m[seq_key(spell_kind_prefix(), id)],
    ) matches Err(fe) && e == LoadError::Entity {
        kind: EntityKind::SpellRealm,
        id: id as u32,
        err: fe,
    }
}

/// A failed realm run: a scalar fails, or some realm is the first to
/// fail.
pub open spec fn realms_run_err(m: Map<Seq<char>, Seq<char>>, e: LoadError) -> bool {
    ||| spell_scalars_err(m, e)
    ||| (spell_scalars_ok(m) && exists|id: int| #[trigger] realms_run_err_at(m, e, id))
}

/// Decodes the whole realm sequence, reading the two global scalars
/// first, stopping at the first absent index and aborting on the first
/// malformed record.
pub fn spell_realms_from_kvs(kvs: &Kvs) -> (r: Result<Vec<SpellRealm>, LoadError>)
    requires
        kvs.wf(),
        kvs@.dom().len() <= u32::MAX as nat,
    ensures
        match r {
            Ok(v) => realms_run_ok(kvs@, realm_views(v@)),
            Err(e) => realms_run_err(kvs@, e),
        },
{
    proof {
        reveal_strlit("SpellLvNum");
        assert("SpellLvNum"@ =~= lvnum_key());
        reveal_strlit("ExclusiveUseOfMonsters");
        assert("ExclusiveUseOfMonsters"@ =~= excl_key());
    }
    let level_count = {
        let s = match kvs.get_expect("SpellLvNum") {
            Some(v) => v,
            None => {
                return Err(LoadError::MissingKey(MandatoryKey::SpellLvNum));
            },
        };
        let sc = chars_of(s.as_str());
        match parse_u32_chars(sc.as_slice()) {
            Some(v) => v,
            None => {
                return Err(LoadError::BadScalar(MandatoryKey::SpellLvNum));
            },
        }
    };
    let exclusive = {
        let s = match kvs.get_expect("ExclusiveUseOfMonsters") {
            Some(v) => v,
            None => {
                return Err(LoadError::MissingKey(MandatoryKey::ExclusiveUseOfMonsters));
            },
        };
        let sc = chars_of(s.as_str());
        match parse_bool_chars(sc.as_slice()) {
            Some(v) => v,
            None => {
                return Err(LoadError::BadScalar(MandatoryKey::ExclusiveUseOfMonsters));
            },
        }
    };
    let texts = kvs.iter_seq("SpellKind");
    proof {
        reveal_strlit("SpellKind");
        assert("SpellKind"@ =~= spell_kind_prefix());
        kvs.lemma_dom_finite();
        lemma_run_bound(kvs@, spell_kind_prefix(), texts@.len() as int);
    }
    let n = texts.len();
    let mut out: Vec<SpellRealm> = Vec::new();
    let mut i: usize = 0;
    while i < n
        invariant
            0 <= i <= n == texts@.len(),
            n <= u32::MAX,
            i == out@.len(),
            kvs.wf(),
            spell_scalars_ok(kvs@),
            level_count == realm_level_count(kvs@),
            exclusive == realm_exclusive(kvs@),
            forall|j: int|
                0 <= j < n ==> kvs@.contains_key(#[trigger] seq_key(spell_kind_prefix(), j))
                    && texts@[j]@ == kvs@[seq_key(spell_kind_prefix(), j)],
            !kvs@.contains_key(seq_key(spell_kind_prefix(), n as int)),
            forall|j: int|
                0 <= j < i ==> realm_spec(
                    realm_level_count(kvs@),
                    realm_exclusive(kvs@) && j == n - 1,
                    j as u32,
                    kvs@[#[trigger] seq_key(spell_kind_prefix(), j)],
                ) == Ok::<SpellRealmV, FieldError>(out@[j]@),
        decreases n - i,
    {
        let id = i as u32;
        let is_last = i + 1 == n;
        match parse(level_count, exclusive && is_last, id, texts[i].as_str()) {
            Ok(sr) => {
                out.push(sr);
            },
            Err(fe) => {
                proof {
                    let w = i as int;
                    if w + 1 < n {
                        assert(kvs@.contains_key(seq_key(spell_kind_prefix(), w + 1)));
                    }
                    assert((exclusive && is_last) == (realm_exclusive(kvs@)
                        && !kvs@.contains_key(seq_key(spell_kind_prefix(), w + 1))));
                    assert(realm_spec(
                        realm_level_count(kvs@),
                        realm_exclusive(kvs@) && !kvs@.contains_key(
                            seq_key(spell_kind_prefix(), w + 1),
                        ),
                        w as u32,
                        kvs@[seq_key(spell_kind_prefix(), w)],
                    ) matches Err(f2) && f2 == fe);
                    assert forall|j: int| 0 <= j < w implies realm_spec(
                        realm_level_count(kvs@),
                        false,
                        j as u32,
                        kvs@[#[trigger] seq_key(spell_kind_prefix(), j)],
                    ) is Ok by {
                        assert(j <= w - 1 <= n - 2);
                        assert((realm_exclusive(kvs@) && j == n - 1) == false);
                    }
                }
                proof {
                    assert(realms_run_err_at(
                        kvs@,
                        LoadError::Entity { kind: EntityKind::SpellRealm, id, err: fe },
                        i as int,
                    ));
                }
                return Err(LoadError::Entity { kind: EntityKind::SpellRealm, id, err: fe });
            },
        }
        i = i + 1;
    }
    proof {
        assert(realm_views(out@).len() == out@.len());
        assert(forall|j: int|
            0 <= j < out@.len() ==> realm_views(out@)[j] == #[trigger] out@[j]@);
    }
    Ok(out)
}

} // verus!
