//! Key/value store: the flat string-to-string map parsed from the
//! decrypted plaintext, plus the sequential-key lookup every entity
//! decoder uses.
//!
//! The store is modelled as a `Map<Seq<char>, Seq<char>>`; a duplicate key
//! in the input overwrites the earlier value and is reported as a
//! non-fatal warning value, never as an error.

use crate::error::GrammarError;
use crate::text::chars_eq;
use crate::text::chars_of;
use crate::text::copy_chars;
use crate::text::copy_range;
use crate::text::dec_str;
use crate::text::ident_char;
use crate::text::is_ascii_ws;
use crate::text::is_ident_char;
use crate::text::lemma_dec_str_injective;
use crate::text::push_dec;
use crate::text::split_on;
use crate::text::split_spec;
use crate::text::string_from_chars;
use crate::text::trim_chars;
use crate::text::trim_spec;
use crate::text::trim_start_spec;
use vstd::prelude::*;
use vstd::set_lib::lemma_len_subset;

verus! {

/// One overwritten store entry, reported as a non-fatal warning.
#[derive(Debug)]
pub struct Duplicate {
    /// The key that occurred twice.
    pub key: String,
    /// The value the later occurrence overwrote.
    pub old_value: String,
}

impl View for Duplicate {
    type V = (Seq<char>, Seq<char>);

    open spec fn view(&self) -> (Seq<char>, Seq<char>) {
        (self.key@, self.old_value@)
    }
}

/// The views of a sequence of duplicate warnings.
pub open spec fn dup_views(v: Seq<Duplicate>) -> Seq<(Seq<char>, Seq<char>)> {
    v.map_values(|d: Duplicate| d@)
}

/// The flat key/value store.
#[derive(Debug)]
pub struct Kvs {
    entries: Vec<(Vec<char>, String)>,
}

/// The map the entries spell, later entries overwriting earlier ones.
spec fn map_of(s: Seq<(Vec<char>, String)>) -> Map<Seq<char>, Seq<char>>
    decreases s.len(),
{
    if s.len() == 0 {
        Map::empty()
    } else {
        map_of(s.drop_last()).insert(s.last().0@, s.last().1@)
    }
}

impl View for Kvs {
    type V = Map<Seq<char>, Seq<char>>;

    closed spec fn view(&self) -> Map<Seq<char>, Seq<char>> {
        map_of(self.entries@)
    }
}

spec fn distinct_keys(s: Seq<(Vec<char>, String)>) -> bool {
    forall|i: int, j: int| 0 <= i < j < s.len() ==> s[i].0@ != s[j].0@
}

proof fn lemma_map_of_contains(s: Seq<(Vec<char>, String)>)
    ensures
        map_of(s).dom().finite(),
        forall|k: Seq<char>|
            #[trigger] map_of(s).contains_key(k) <==> exists|i: int|
                0 <= i < s.len() && s[i].0@ == k,
    decreases s.len(),
{
    if s.len() == 0 {
    } else {
        lemma_map_of_contains(s.drop_last());
        assert forall|k: Seq<char>| #[trigger]
            map_of(s).contains_key(k) implies exists|i: int| 0 <= i < s.len() && s[i].0@
            == k by {
            if k == s.last().0@ {
                assert(s[s.len() - 1].0@ == k);
            } else {
                let i = choose|i: int| 0 <= i < s.drop_last().len() && s.drop_last()[i].0@ == k;
                assert(s[i].0@ == k);
            }
        }
        assert forall|k: Seq<char>|
            (exists|i: int| 0 <= i < s.len() && s[i].0@ == k) implies #[trigger] map_of(
            s,
        ).contains_key(k) by {
            let i = choose|i: int| 0 <= i < s.len() && s[i].0@ == k;
            if i < s.len() - 1 {
                assert(s.drop_last()[i].0@ == k);
            }
        }
    }
}

proof fn lemma_map_of_index(s: Seq<(Vec<char>, String)>, i: int)
    requires
        distinct_keys(s),
        0 <= i < s.len(),
    ensures
        map_of(s).contains_key(s[i].0@),
        map_of(s)[s[i].0@] == s[i].1@,
    decreases s.len(),
{
    if i == s.len() - 1 {
    } else {
        lemma_map_of_index(s.drop_last(), i);
        assert(s.last().0@ != s[i].0@);
    }
}

proof fn lemma_map_of_len(s: Seq<(Vec<char>, String)>)
    requires
        distinct_keys(s),
    ensures
        map_of(s).dom().len() == s.len(),
    decreases s.len(),
{
    if s.len() > 0 {
        lemma_map_of_len(s.drop_last());
        lemma_map_of_contains(s.drop_last());
        let m = map_of(s.drop_last());
        let k = s.last().0@;
        assert(!m.contains_key(k)) by {
            if m.contains_key(k) {
                let i = choose|i: int|
                    0 <= i < s.drop_last().len() && s.drop_last()[i].0@ == k;
                assert(s[i].0@ == s[s.len() - 1].0@);
            }
        }
        assert(m.insert(k, s.last().1@).dom() =~= m.dom().insert(k));
    }
}

proof fn lemma_map_of_update(s: Seq<(Vec<char>, String)>, i: int, p: (Vec<char>, String))
    requires
        distinct_keys(s),
        0 <= i < s.len(),
        p.0@ == s[i].0@,
    ensures
        map_of(s.update(i, p)) == map_of(s).insert(p.0@, p.1@),
    decreases s.len(),
{
    let t = s.update(i, p);
    if i == s.len() - 1 {
        assert(t.drop_last() =~= s.drop_last());
        assert(t.last() == p);
        assert(map_of(s.drop_last()).insert(p.0@, p.1@) =~= map_of(s).insert(p.0@, p.1@));
    } else {
        assert(t.drop_last() =~= s.drop_last().update(i, p));
        assert(t.last() == s.last());
        lemma_map_of_update(s.drop_last(), i, p);
        assert(s.last().0@ != p.0@);
        assert(map_of(s.drop_last()).insert(p.0@, p.1@).insert(s.last().0@, s.last().1@)
            =~= map_of(s.drop_last()).insert(s.last().0@, s.last().1@).insert(p.0@, p.1@));
    }
}

impl Kvs {
    /// The store's structural invariant: entry keys are distinct, so the
    /// entry list and the map agree.
    pub closed spec fn wf(self) -> bool {
        distinct_keys(self.entries@)
    }

    /// The empty store.
    pub fn new() -> (r: Kvs)
        ensures
            r.wf(),
            r@ == Map::<Seq<char>, Seq<char>>::empty(),
    {
        Kvs { entries: Vec::new() }
    }

    fn find_idx(&self, key: &[char]) -> (r: Option<usize>)
        ensures
            match r {
                Some(i) => i < self.entries@.len() && self.entries@[i as int].0@ == key@,
                None => forall|i: int| 0 <= i < self.entries@.len() ==> self.entries@[i].0@ != key@,
            },
    {
        let n = self.entries.len();
        let mut i: usize = 0;
        while i < n
            invariant
                0 <= i <= n == self.entries@.len(),
                forall|j: int| 0 <= j < i ==> self.entries@[j].0@ != key@,
            decreases n - i,
        {
            if chars_eq(self.entries[i].0.as_slice(), key) {
                return Some(i);
            }
            i = i + 1;
        }
        None
    }

    /// Looks a key up, the key given as characters.
    pub fn get_chars(&self, key: &[char]) -> (r: Option<&String>)
        requires
            self.wf(),
        ensures
            match r {
                Some(v) => self@.contains_key(key@) && v@ == self@[key@],
                None => !self@.contains_key(key@),
            },
    {
        proof {
            lemma_map_of_contains(self.entries@);
        }
        match self.find_idx(key) {
            Some(i) => {
                proof {
                    lemma_map_of_index(self.entries@, i as int);
                }
                Some(&self.entries[i].1)
            },
            None => None,
        }
    }

    /// Looks a key up.
    pub fn get(&self, key: &str) -> (r: Option<&String>)
        requires
            self.wf(),
        ensures
            match r {
                Some(v) => self@.contains_key(key@) && v@ == self@[key@],
                None => !self@.contains_key(key@),
            },
    {
        let k = chars_of(key);
        self.get_chars(k.as_slice())
    }

    /// Looks a mandatory key up; the caller turns `None` into its
    /// missing-key error.
    pub fn get_expect(&self, key: &str) -> (r: Option<&String>)
        requires
            self.wf(),
        ensures
            match r {
                Some(v) => self@.contains_key(key@) && v@ == self@[key@],
                None => !self@.contains_key(key@),
            },
    {
        self.get(key)
    }

    /// The value under `key`, or `default` where the key is absent.
    pub fn get_or<'a>(&'a self, key: &str, default: &'a str) -> (r: &'a str)
        requires
            self.wf(),
        ensures
            self@.contains_key(key@) ==> r@ == self@[key@],
            !self@.contains_key(key@) ==> r@ == default@,
    {
        match self.get(key) {
            Some(v) => v.as_str(),
            None => default,
        }
    }

    /// How many keys the store holds.
    pub fn len(&self) -> (r: usize)
        requires
            self.wf(),
        ensures
            r == self@.dom().len(),
    {
        proof {
            lemma_map_of_len(self.entries@);
        }
        self.entries.len()
    }

    /// Inserts a key/value pair; a later occurrence of a key overwrites
    /// the earlier value, which is handed back.
    pub fn insert(&mut self, key: Vec<char>, value: String) -> (old_val: Option<String>)
        requires
            old(self).wf(),
        ensures
            final(self).wf(),
            final(self)@ == old(self)@.insert(key@, value@),
            match old_val {
                Some(v) => old(self)@.contains_key(key@) && v@ == old(self)@[key@],
                None => !old(self)@.contains_key(key@),
            },
    {
        proof {
            lemma_map_of_contains(self.entries@);
        }
        match self.find_idx(key.as_slice()) {
            Some(i) => {
                proof {
                    lemma_map_of_index(self.entries@, i as int);
                }
                let old_val = self.entries[i].1.clone();
                let ghost old_entries = self.entries@;
                proof {
                    lemma_map_of_update(old_entries, i as int, (key, value));
                }
                self.entries.set(i, (key, value));
                proof {
                    assert(distinct_keys(self.entries@)) by {
                        assert(forall|a: int, b: int|
                            0 <= a < b < self.entries@.len() ==> self.entries@[a].0@
                                != self.entries@[b].0@) by {
                            assert(forall|a: int|
                                0 <= a < self.entries@.len() ==> self.entries@[a].0@
                                    == old_entries[a].0@);
                        }
                    }
                }
                Some(old_val)
            },
            None => {
                let ghost old_entries = self.entries@;
                self.entries.push((key, value));
                proof {
                    assert(self.entries@.drop_last() =~= old_entries);
                    assert(self.entries@.last() == (key, value));
                    assert(forall|a: int|
                        0 <= a < old_entries.len() ==> self.entries@[a] == old_entries[a]);
                }
                None
            },
        }
    }
}

// ----------------------------------------------------------------------
// sequential keys
// ----------------------------------------------------------------------

/// The key of the `i`-th entity of a prefix-driven sequence: the prefix
/// followed by the decimal rendering of `i`.
pub open spec fn seq_key(prefix: Seq<char>, i: int) -> Seq<char> {
    prefix + dec_str(i as nat)
}

/// Sequential keys with one prefix are distinct for distinct indices.
pub proof fn lemma_seq_key_injective(prefix: Seq<char>, a: int, b: int)
    requires
        0 <= a,
        0 <= b,
        seq_key(prefix, a) == seq_key(prefix, b),
    ensures
        a == b,
{
    let ka = seq_key(prefix, a);
    let kb = seq_key(prefix, b);
    assert(ka.skip(prefix.len() as int) =~= dec_str(a as nat));
    assert(kb.skip(prefix.len() as int) =~= dec_str(b as nat));
    lemma_dec_str_injective(a as nat, b as nat);
}

/// A run of present sequential keys is no longer than the store: the keys
/// are distinct, so they cannot outnumber the store's entries.
pub proof fn lemma_run_bound(m: Map<Seq<char>, Seq<char>>, prefix: Seq<char>, n: int)
    requires
        m.dom().finite(),
        n >= 0,
        forall|j: int| 0 <= j < n ==> m.contains_key(#[trigger] seq_key(prefix, j)),
    ensures
        n <= m.dom().len(),
{
    let keys = Seq::new(n as nat, |j: int| seq_key(prefix, j));
    assert(keys.no_duplicates()) by {
        assert forall|i: int, j: int|
            0 <= i < keys.len() && 0 <= j < keys.len() && i != j implies keys[i] != keys[j] by {
            if keys[i] == keys[j] {
                lemma_seq_key_injective(prefix, i, j);
            }
        }
    }
    keys.unique_seq_to_set();
    assert(keys.to_set().subset_of(m.dom())) by {
        assert forall|k: Seq<char>| keys.to_set().contains(k) implies m.dom().contains(k) by {
            let j = choose|j: int| 0 <= j < keys.len() && keys[j] == k;
            assert(m.contains_key(seq_key(prefix, j)));
        }
    }
    lemma_len_subset(keys.to_set(), m.dom());
}

impl Kvs {
    /// The finiteness of the store's key set, for callers reasoning about
    /// runs.
    pub proof fn lemma_dom_finite(self)
        ensures
            self@.dom().finite(),
    {
        lemma_map_of_contains(self.entries@);
    }

    /// The values under `prefix + "0"`, `prefix + "1"`, ..., stopping at
    /// the first index whose key is absent, even if higher indices exist.
    pub fn iter_seq(&self, prefix: &str) -> (r: Vec<String>)
        requires
            self.wf(),
        ensures
            forall|j: int|
                0 <= j < r@.len() ==> self@.contains_key(#[trigger] seq_key(prefix@, j)) && r@[j]@
                    == self@[seq_key(prefix@, j)],
            !self@.contains_key(seq_key(prefix@, r@.len() as int)),
    {
        let prefix_chars = chars_of(prefix);
        let mut r: Vec<String> = Vec::new();
        let mut i: usize = 0;
        proof {
            lemma_map_of_contains(self.entries@);
            lemma_map_of_len(self.entries@);
        }
        loop
            invariant
                self.wf(),
                i == r@.len(),
                i <= self.entries@.len(),
                prefix_chars@ == prefix@,
                self@.dom().finite(),
                self@.dom().len() == self.entries@.len(),
                forall|j: int|
                    0 <= j < i ==> self@.contains_key(#[trigger] seq_key(prefix@, j)) && r@[j]@
                        == self@[seq_key(prefix@, j)],
            ensures
                forall|j: int|
                    0 <= j < r@.len() ==> self@.contains_key(#[trigger] seq_key(prefix@, j))
                        && r@[j]@ == self@[seq_key(prefix@, j)],
                !self@.contains_key(seq_key(prefix@, r@.len() as int)),
            decreases self.entries@.len() + 1 - i,
        {
            let mut key = copy_chars(prefix_chars.as_slice());
            push_dec(i as u64, &mut key);
            proof {
                assert(key@ == seq_key(prefix@, i as int));
            }
            match self.get_chars(key.as_slice()) {
                Some(v) => {
                    r.push(v.clone());
                    proof {
                        lemma_run_bound(self@, prefix@, i + 1);
                    }
                    i = r.len();
                },
                None => {
                    return r;
                },
            }
        }
    }
}

// ----------------------------------------------------------------------
// the line grammar
// ----------------------------------------------------------------------

/// Which clause of the line grammar a line breaks.
#[derive(Clone, Copy, Debug, PartialEq, Eq, Structural)]
pub enum LineFault {
    /// No `[A-Za-z0-9_]+` identifier starts the line.
    NoKey,
    /// The key is not followed by a literal `=`.
    MissingEquals,
    /// The `=` is not followed by an opening `"`.
    MissingOpenQuote,
    /// The line does not end in a closing `"` after the opening quote.
    MissingCloseQuote,
}

/// The [`GrammarError`] of a fault on the line with the given index.
pub open spec fn grammar_error(f: LineFault, line: int) -> GrammarError {
    match f {
        LineFault::NoKey => GrammarError::NoKey { line: line as usize },
        LineFault::MissingEquals => GrammarError::MissingEquals { line: line as usize },
        LineFault::MissingOpenQuote => GrammarError::MissingOpenQuote { line: line as usize },
        LineFault::MissingCloseQuote => GrammarError::MissingCloseQuote { line: line as usize },
    }
}

/// The length of the identifier run starting the sequence.
pub open spec fn ident_run_len(s: Seq<char>) -> int
    decreases s.len(),
{
    if s.len() > 0 && is_ident_char(s[0]) {
        1 + ident_run_len(s.drop_first())
    } else {
        0
    }
}

proof fn lemma_ident_run(s: Seq<char>, k: int)
    requires
        0 <= k <= s.len(),
        forall|i: int| 0 <= i < k ==> is_ident_char(s[i]),
        k == s.len() || !is_ident_char(s[k]),
    ensures
        ident_run_len(s) == k,
    decreases k,
{
    if k == 0 {
    } else {
        assert(is_ident_char(s[0]));
        lemma_ident_run(s.drop_first(), k - 1);
    }
}

/// What parsing one (already trimmed, non-empty) line yields: the key and
/// the value, or the first grammar clause the line breaks.
pub open spec fn line_spec(t: Seq<char>) -> Result<(Seq<char>, Seq<char>), LineFault> {
    let k = ident_run_len(t);
    if k == 0 {
        Err(LineFault::NoKey)
    } else {
        let after_key = trim_start_spec(t.skip(k));
        if !(after_key.len() > 0 && after_key[0] == '=') {
            Err(LineFault::MissingEquals)
        } else {
            let after_eq = trim_start_spec(after_key.drop_first());
            if !(after_eq.len() > 0 && after_eq[0] == '"') {
                Err(LineFault::MissingOpenQuote)
            } else {
                let inner = after_eq.drop_first();
                if !(inner.len() > 0 && inner.last() == '"') {
                    Err(LineFault::MissingCloseQuote)
                } else {
                    Ok((t.take(k), inner.drop_last()))
                }
            }
        }
    }
}

/// Parses one trimmed line into its key and value characters.
#[verifier::rlimit(50)]
fn parse_line(t: &[char]) -> (r: Result<(Vec<char>, Vec<char>), LineFault>)
    ensures
        match r {
            Ok(kv) => line_spec(t@) == Ok::<(Seq<char>, Seq<char>), LineFault>((kv.0@, kv.1@)),
            Err(f) => line_spec(t@) == Err::<(Seq<char>, Seq<char>), LineFault>(f),
        },
{
    let n = t.len();
    let mut k: usize = 0;
    while k < n && ident_char(t[k])
        invariant
            0 <= k <= n == t@.len(),
            forall|i: int| 0 <= i < k ==> is_ident_char(t@[i]),
        decreases n - k,
    {
        k = k + 1;
    }
    proof {
        lemma_ident_run(t@, k as int);
    }
    if k == 0 {
        return Err(LineFault::NoKey);
    }
    // skip whitespace after the key
    let mut p: usize = k;
    while p < n && ascii_ws_at(t, p)
        invariant
            k <= p <= n == t@.len(),
            forall|i: int| k <= i < p ==> is_ascii_ws(t@[i]),
        decreases n - p,
    {
        p = p + 1;
    }
    proof {
        crate::text::lemma_trim_start_skip(t@.skip(k as int), p - k);
        assert(t@.skip(k as int).skip(p - k) =~= t@.skip(p as int));
    }
    // the '='
    if !(p < n && t[p] == '=') {
        return Err(LineFault::MissingEquals);
    }
    // skip whitespace after the '='
    let mut q: usize = p + 1;
    while q < n && ascii_ws_at(t, q)
        invariant
            p + 1 <= q <= n == t@.len(),
            forall|i: int| p + 1 <= i < q ==> is_ascii_ws(t@[i]),
        decreases n - q,
    {
        q = q + 1;
    }
    proof {
        let after_key = t@.skip(p as int);
        assert(after_key.drop_first() =~= t@.skip(p + 1));
        crate::text::lemma_trim_start_skip(t@.skip(p + 1), q - (p + 1));
        assert(t@.skip(p + 1).skip(q - (p + 1)) =~= t@.skip(q as int));
    }
    // the opening quote
    if !(q < n && t[q] == '"') {
        return Err(LineFault::MissingOpenQuote);
    }
    proof {
        let after_eq = t@.skip(q as int);
        assert(after_eq.drop_first() =~= t@.skip(q + 1));
    }
    // the closing quote must end the line
    if !(q + 1 < n && t[n - 1] == '"') {
        proof {
            let inner = t@.skip(q + 1);
            if inner.len() > 0 {
                assert(inner.last() == t@[n - 1]);
            }
        }
        return Err(LineFault::MissingCloseQuote);
    }
    proof {
        let inner = t@.skip(q + 1);
        assert(inner.last() == t@[n - 1]);
        assert(inner.drop_last() =~= t@.subrange(q + 1, n - 1));
        assert(t@.take(k as int) =~= t@.subrange(0, k as int));
    }
    let key = copy_range(t, 0, k);
    let value = copy_range(t, q + 1, n - 1);
    Ok((key, value))
}

/// Runtime whitespace test through an index (keeps the loop conditions
/// free of blocks).
fn ascii_ws_at(t: &[char], i: usize) -> (r: bool)
    requires
        i < t@.len(),
    ensures
        r == is_ascii_ws(t@[i as int]),
{
    crate::text::ascii_ws(t[i])
}

// ----------------------------------------------------------------------
// whole-text parsing
// ----------------------------------------------------------------------

/// The lines of the plaintext: the fields between newline characters.
pub open spec fn text_lines(text: Seq<char>) -> Seq<Seq<char>> {
    split_spec(text, seq!['\n'])
}

/// What parsing a sequence of lines yields: the store's map and the
/// duplicate warnings in order, or the first grammar error.  Lines are
/// trimmed of ASCII whitespace; empty lines are skipped.
pub open spec fn kvs_fold(lines: Seq<Seq<char>>) -> Result<
    (Map<Seq<char>, Seq<char>>, Seq<(Seq<char>, Seq<char>)>),
    GrammarError,
>
    decreases lines.len(),
{
    if lines.len() == 0 {
        Ok((Map::empty(), Seq::empty()))
    } else {
        match kvs_fold(lines.drop_last()) {
            Err(e) => Err(e),
            Ok(acc) => {
                let t = trim_spec(lines.last());
                if t.len() == 0 {
                    Ok(acc)
                } else {
                    match line_spec(t) {
                        Err(f) => Err(grammar_error(f, lines.len() - 1)),
                        Ok(kv) => if acc.0.contains_key(kv.0) {
                            Ok((acc.0.insert(kv.0, kv.1), acc.1.push((kv.0, acc.0[kv.0]))))
                        } else {
                            Ok((acc.0.insert(kv.0, kv.1), acc.1))
                        },
                    }
                }
            },
        }
    }
}

/// What parsing the whole plaintext yields.
pub open spec fn kvs_spec(text: Seq<char>) -> Result<
    (Map<Seq<char>, Seq<char>>, Seq<(Seq<char>, Seq<char>)>),
    GrammarError,
> {
    kvs_fold(text_lines(text))
}

/// Parses the plaintext into the key/value store, reporting overwritten
/// duplicate entries as warnings.  The store never holds more keys than
/// the text has lines.
pub fn parse(plaintext: &str) -> (r: Result<(Kvs, Vec<Duplicate>), GrammarError>)
    ensures
        match r {
            Ok(p) => p.0.wf() && (kvs_spec(plaintext@) matches Ok(model) && p.0@ == model.0
                && dup_views(p.1@) == model.1) && p.0@.dom().len() <= text_lines(plaintext@).len(),
            Err(e) => kvs_spec(plaintext@) == Err::<
                (Map<Seq<char>, Seq<char>>, Seq<(Seq<char>, Seq<char>)>),
                GrammarError,
            >(e),
        },
{
    let chars = chars_of(plaintext);
    let mut nl: Vec<char> = Vec::new();
    nl.push('\n');
    proof {
        assert(nl@ =~= seq!['\n']);
    }
    let lines = split_on(chars.as_slice(), nl.as_slice());
    let ghost all_lines = text_lines(plaintext@);
    let mut kvs = Kvs::new();
    let mut dups: Vec<Duplicate> = Vec::new();
    let n = lines.len();
    let mut li: usize = 0;
    proof {
        assert(all_lines.take(0) =~= Seq::<Seq<char>>::empty());
        assert(dup_views(dups@) =~= Seq::<(Seq<char>, Seq<char>)>::empty());
    }
    while li < n
        invariant
            0 <= li <= n == lines@.len(),
            n == all_lines.len(),
            all_lines == text_lines(plaintext@),
            forall|j: int| 0 <= j < n ==> lines@[j]@ == #[trigger] all_lines[j],
            kvs.wf(),
            kvs@.dom().finite(),
            kvs_fold(all_lines.take(li as int)) == Ok::<
                (Map<Seq<char>, Seq<char>>, Seq<(Seq<char>, Seq<char>)>),
                GrammarError,
            >((kvs@, dup_views(dups@))),
            kvs@.dom().len() <= li,
        decreases n - li,
    {
        let ghost prefix = all_lines.take(li as int);
        let ghost prefix1 = all_lines.take(li + 1);
        proof {
            assert(prefix1.drop_last() =~= prefix);
            assert(prefix1.last() == all_lines[li as int]);
        }
        let t = trim_chars(lines[li].as_slice());
        if t.len() != 0 {
            match parse_line(t.as_slice()) {
                Ok(kv) => {
                    let ghost old_map = kvs@;
                    let ghost old_dups = dup_views(dups@);
                    let ghost k = kv.0@;
                    let key_string = string_from_chars(kv.0.as_slice());
                    let value_string = string_from_chars(kv.1.as_slice());
                    let old_val = kvs.insert(kv.0, value_string);
                    proof {
                        assert(kvs@.dom() =~= old_map.dom().insert(k));
                    }
                    match old_val {
                        Some(old) => {
                            let d = Duplicate { key: key_string, old_value: old };
                            let ghost dv = d@;
                            dups.push(d);
                            proof {
                                assert(dup_views(dups@) =~= old_dups.push(dv));
                            }
                        },
                        None => {},
                    }
                },
                Err(f) => {
                    let e = match f {
                        LineFault::NoKey => GrammarError::NoKey { line: li },
                        LineFault::MissingEquals => GrammarError::MissingEquals { line: li },
                        LineFault::MissingOpenQuote => GrammarError::MissingOpenQuote {
                            line: li,
                        },
                        LineFault::MissingCloseQuote => GrammarError::MissingCloseQuote {
                            line: li,
                        },
                    };
                    proof {
                        assert(e == grammar_error(f, li as int));
                        assert(kvs_fold(prefix1) == Err::<
                            (Map<Seq<char>, Seq<char>>, Seq<(Seq<char>, Seq<char>)>),
                            GrammarError,
                        >(grammar_error(f, li as int)));
                        lemma_kvs_fold_err_extends(all_lines, li + 1);
                    }
                    return Err(e);
                },
            }
        }
        li = li + 1;
    }
    proof {
        assert(all_lines.take(n as int) =~= all_lines);
    }
    Ok((kvs, dups))
}

/// Once a prefix of the lines fails, the whole text fails with the same
/// error.
proof fn lemma_kvs_fold_err_extends(lines: Seq<Seq<char>>, i: int)
    requires
        0 <= i <= lines.len(),
        kvs_fold(lines.take(i)) is Err,
    ensures
        kvs_fold(lines) == kvs_fold(lines.take(i)),
    decreases lines.len() - i,
{
    if i < lines.len() {
        let next = lines.take(i + 1);
        assert(next.drop_last() =~= lines.take(i));
        assert(kvs_fold(next) == kvs_fold(lines.take(i)));
        lemma_kvs_fold_err_extends(lines, i + 1);
    } else {
        assert(lines.take(i) =~= lines);
    }
}

} // verus!
