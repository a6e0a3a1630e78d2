//! The scenario aggregator: the sole entry point of the decode pipeline.
//!
//! `load_from_plaintext` parses the key/value store, reads the three
//! mandatory scalar keys, and decodes the six entity sequences in a fixed
//! order; `load_from_ciphertext` first runs the cipher engine.  The
//! aggregate is built whole or not at all: the first error anywhere
//! aborts the load.

use crate::cipher::crypto_err_spec;
use crate::cipher::decrypt;
use crate::cipher::decrypted_text;
use crate::class::class_views;
use crate::class::classes_from_kvs;
use crate::class::classes_run_err;
use crate::class::classes_run_err_at;
use crate::class::classes_run_ok;
use crate::class::Class;
use crate::class::ClassV;
use crate::error::LoadError;
use crate::error::MandatoryKey;
use crate::item::item_views;
use crate::item::items_from_kvs;
use crate::item::items_run_err;
use crate::item::items_run_err_at;
use crate::item::items_run_ok;
use crate::item::Item;
use crate::item::ItemV;
use crate::kvs::kvs_spec;
use crate::monster::monster_views;
use crate::monster::monsters_from_kvs;
use crate::monster::monsters_run_err;
use crate::monster::monsters_run_ok;
use crate::monster::Monster;
use crate::monster::MonsterV;
use crate::race::race_views;
use crate::race::races_from_kvs;
use crate::race::races_run_err;
use crate::race::races_run_err_at;
use crate::race::races_run_ok;
use crate::race::Race;
use crate::race::RaceV;
use crate::spell::realm_views;
use crate::spell::realms_run_err;
use crate::spell::realms_run_err_at;
use crate::spell::realms_run_ok;
use crate::spell::spell_realms_from_kvs;
use crate::spell::spell_scalars_err;
use crate::spell::spell_scalars_ok;
use crate::spell::SpellRealm;
use crate::spell::SpellRealmV;
use crate::stat::stat_views;
use crate::stat::stats_from_kvs;
use crate::stat::stats_run_err;
use crate::stat::stats_run_err_at;
use crate::stat::stats_run_ok;
use crate::stat::Stat;
use crate::stat::StatV;
use crate::text::lemma_split_count;
use vstd::prelude::*;

verus! {

/// The top-level immutable aggregate of one decoded scenario.
#[derive(Debug)]
pub struct Scenario {
    /// The editor version string (`Version`).
    pub editor_version: String,
    /// The scenario id string (`ReadKeyword`).
    pub id: String,
    /// The scenario title (`GameTitle`).
    pub title: String,
    /// The decoded stats.
    pub stats: Vec<Stat>,
    /// The decoded races.
    pub races: Vec<Race>,
    /// The decoded classes.
    pub classes: Vec<Class>,
    /// The decoded spell realms.
    pub spell_realms: Vec<SpellRealm>,
    /// The decoded items.
    pub items: Vec<Item>,
    /// The decoded monsters.
    pub monsters: Vec<Monster>,
}

/// The mathematical content of a [`Scenario`].
pub struct ScenarioV {
    pub editor_version: Seq<char>,
    pub id: Seq<char>,
    pub title: Seq<char>,
    pub stats: Seq<StatV>,
    pub races: Seq<RaceV>,
    pub classes: Seq<ClassV>,
    pub spell_realms: Seq<SpellRealmV>,
    pub items: Seq<ItemV>,
    pub monsters: Seq<MonsterV>,
}

impl View for Scenario {
    type V = ScenarioV;

    open spec fn view(&self) -> ScenarioV {
        ScenarioV {
            editor_version: self.editor_version@,
            id: self.id@,
            title: self.title@,
            stats: stat_views(self.stats@),
            races: race_views(self.races@),
            classes: class_views(self.classes@),
            spell_realms: realm_views(self.spell_realms@),
            items: item_views(self.items@),
            monsters: monster_views(self.monsters@),
        }
    }
}

/// The `Version` key.
pub open spec fn version_key() -> Seq<char> {
    seq!['V', 'e', 'r', 's', 'i', 'o', 'n']
}

/// The `ReadKeyword` key.
pub open spec fn read_keyword_key() -> Seq<char> {
    seq!['R', 'e', 'a', 'd', 'K', 'e', 'y', 'w', 'o', 'r', 'd']
}

/// The `GameTitle` key.
pub open spec fn game_title_key() -> Seq<char> {
    seq!['G', 'a', 'm', 'e', 'T', 'i', 't', 'l', 'e']
}

/// Whether some stat run succeeds on the store.
pub open spec fn stats_run_succeeds(m: Map<Seq<char>, Seq<char>>) -> bool {
    exists|v: Seq<StatV>| #[trigger] stats_run_ok(m, v)
}

/// Whether some race run succeeds on the store.
pub open spec fn races_run_succeeds(m: Map<Seq<char>, Seq<char>>) -> bool {
    exists|v: Seq<RaceV>| #[trigger] races_run_ok(m, v)
}

/// Whether some class run succeeds on the store.
pub open spec fn classes_run_succeeds(m: Map<Seq<char>, Seq<char>>) -> bool {
    exists|v: Seq<ClassV>| #[trigger] classes_run_ok(m, v)
}

/// Whether some realm run succeeds on the store.
pub open spec fn realms_run_succeeds(m: Map<Seq<char>, Seq<char>>) -> bool {
    exists|v: Seq<SpellRealmV>| #[trigger] realms_run_ok(m, v)
}

/// Whether some item run succeeds on the store.
pub open spec fn items_run_succeeds(m: Map<Seq<char>, Seq<char>>) -> bool {
    exists|v: Seq<ItemV>| #[trigger] items_run_ok(m, v)
}

/// What a successful load yields: the store parses, the three mandatory
/// scalars are present and copied, and each entity sequence is the
/// decoding of its gap-stop run.
pub open spec fn scenario_ok(text: Seq<char>, sc: ScenarioV) -> bool {
    &&& kvs_spec(text) matches Ok(p) && {
        let m = p.0;
        &&& m.contains_key(version_key()) && sc.editor_version == m[version_key()]
        &&& m.contains_key(read_keyword_key()) && sc.id == m[read_keyword_key()]
        &&& m.contains_key(game_title_key()) && sc.title == m[game_title_key()]
        &&& stats_run_ok(m, sc.stats)
        &&& races_run_ok(m, sc.races)
        &&& classes_run_ok(m, sc.classes)
        &&& realms_run_ok(m, sc.spell_realms)
        &&& items_run_ok(m, sc.items)
        &&& monsters_run_ok(m, sc.monsters)
    }
}

/// Which error a failing load yields: the first stage to fail decides,
/// in the fixed order grammar, the three scalars, stats, races, classes,
/// spell realms, items, monsters.
pub open spec fn load_err_spec(text: Seq<char>, e: LoadError) -> bool {
    match kvs_spec(text) {
        Err(g) => e == LoadError::Grammar(g),
        Ok(p) => {
            let m = p.0;
            if !m.contains_key(version_key()) {
                e == LoadError::MissingKey(MandatoryKey::Version)
            } else if !m.contains_key(read_keyword_key()) {
                e == LoadError::MissingKey(MandatoryKey::ReadKeyword)
            } else if !m.contains_key(game_title_key()) {
                e == LoadError::MissingKey(MandatoryKey::GameTitle)
            } else if !stats_run_succeeds(m) {
                stats_run_err(m, e)
            } else if !races_run_succeeds(m) {
                races_run_err(m, e)
            } else if !classes_run_succeeds(m) {
                classes_run_err(m, e)
            } else if !realms_run_succeeds(m) {
                realms_run_err(m, e)
            } else if !items_run_succeeds(m) {
                items_run_err(m, e)
            } else {
                monsters_run_err(m, e)
            }
        },
    }
}

// ----------------------------------------------------------------------
// a failing run excludes a succeeding one
// ----------------------------------------------------------------------

proof fn lemma_stats_err_excludes_ok(m: Map<Seq<char>, Seq<char>>, e: LoadError)
    requires
        stats_run_err(m, e),
    ensures
        !stats_run_succeeds(m),
{
    if stats_run_succeeds(m) {
        let v = choose|v: Seq<StatV>| stats_run_ok(m, v);
        let id = choose|id: int| stats_run_err_at(m, e, id);
        if id < v.len() {
            assert(crate::stat::stat_spec(id as u32, m[crate::kvs::seq_key(
                crate::stat::abi_prefix(),
                id,
            )]) is Ok);
        } else if id == v.len() {
            assert(m.contains_key(crate::kvs::seq_key(crate::stat::abi_prefix(), id)));
        } else {
            assert(m.contains_key(crate::kvs::seq_key(crate::stat::abi_prefix(), v.len() as int)));
        }
    }
}

proof fn lemma_races_err_excludes_ok(m: Map<Seq<char>, Seq<char>>, e: LoadError)
    requires
        races_run_err(m, e),
    ensures
        !races_run_succeeds(m),
{
    if races_run_succeeds(m) {
        let v = choose|v: Seq<RaceV>| races_run_ok(m, v);
        let id = choose|id: int| races_run_err_at(m, e, id);
        if id < v.len() {
            assert(crate::race::race_spec(id as u32, m[crate::kvs::seq_key(
                crate::race::race_prefix(),
                id,
            )]) is Ok);
        } else if id == v.len() {
            assert(m.contains_key(crate::kvs::seq_key(crate::race::race_prefix(), id)));
        } else {
            assert(m.contains_key(crate::kvs::seq_key(crate::race::race_prefix(), v.len() as int)));
        }
    }
}

proof fn lemma_classes_err_excludes_ok(m: Map<Seq<char>, Seq<char>>, e: LoadError)
    requires
        classes_run_err(m, e),
    ensures
        !classes_run_succeeds(m),
{
    if classes_run_succeeds(m) {
        let v = choose|v: Seq<ClassV>| classes_run_ok(m, v);
        let id = choose|id: int| classes_run_err_at(m, e, id);
        if id < v.len() {
            assert(crate::class::class_spec(id as u32, m[crate::kvs::seq_key(
                crate::class::class_prefix(),
                id,
            )]) is Ok);
        } else if id == v.len() {
            assert(m.contains_key(crate::kvs::seq_key(crate::class::class_prefix(), id)));
        } else {
            assert(m.contains_key(crate::kvs::seq_key(
                crate::class::class_prefix(),
                v.len() as int,
            )));
        }
    }
}

proof fn lemma_realms_err_excludes_ok(m: Map<Seq<char>, Seq<char>>, e: LoadError)
    requires
        realms_run_err(m, e),
    ensures
        !realms_run_succeeds(m),
{
    if realms_run_succeeds(m) {
        let v = choose|v: Seq<SpellRealmV>| realms_run_ok(m, v);
        assert(spell_scalars_ok(m));
        if spell_scalars_err(m, e) {
            assert(false);
        } else {
            let id = choose|id: int| realms_run_err_at(m, e, id);
            if id < v.len() {
                if id == v.len() - 1 {
                    assert(!m.contains_key(crate::kvs::seq_key(
                        crate::spell::spell_kind_prefix(),
                        v.len() as int,
                    )));
                    assert(crate::spell::realm_spec(
                        crate::spell::realm_level_count(m),
                        crate::spell::realm_exclusive(m) && id == v.len() - 1,
                        id as u32,
                        m[crate::kvs::seq_key(crate::spell::spell_kind_prefix(), id)],
                    ) is Ok);
                } else {
                    assert(m.contains_key(crate::kvs::seq_key(
                        crate::spell::spell_kind_prefix(),
                        id + 1,
                    )));
                    assert(crate::spell::realm_spec(
                        crate::spell::realm_level_count(m),
                        crate::spell::realm_exclusive(m) && id == v.len() - 1,
                        id as u32,
                        m[crate::kvs::seq_key(crate::spell::spell_kind_prefix(), id)],
                    ) is Ok);
                    assert((crate::spell::realm_exclusive(m) && id == v.len() - 1) == (
                    crate::spell::realm_exclusive(m) && !m.contains_key(crate::kvs::seq_key(
                        crate::spell::spell_kind_prefix(),
                        id + 1,
                    ))));
                }
            } else if id == v.len() {
                assert(m.contains_key(crate::kvs::seq_key(crate::spell::spell_kind_prefix(), id)));
            } else {
                assert(m.contains_key(crate::kvs::seq_key(
                    crate::spell::spell_kind_prefix(),
                    v.len() as int,
                )));
            }
        }
    }
}

proof fn lemma_items_err_excludes_ok(m: Map<Seq<char>, Seq<char>>, e: LoadError)
    requires
        items_run_err(m, e),
    ensures
        !items_run_succeeds(m),
{
    if items_run_succeeds(m) {
        let v = choose|v: Seq<ItemV>| items_run_ok(m, v);
        let id = choose|id: int| items_run_err_at(m, e, id);
        if id < v.len() {
            assert(crate::item::item_spec(id as u32, m[crate::kvs::seq_key(
                crate::item::item_prefix(),
                id,
            )]) is Ok);
        } else if id == v.len() {
            assert(m.contains_key(crate::kvs::seq_key(crate::item::item_prefix(), id)));
        } else {
            assert(m.contains_key(crate::kvs::seq_key(crate::item::item_prefix(), v.len() as int)));
        }
    }
}

impl Scenario {
    /// Decodes a whole scenario from its decrypted plaintext.
    ///
    /// The length bound keeps every entity id within `u32` (each decoded
    /// entity needs its own key, hence its own line of the text).
    pub fn load_from_plaintext(plaintext: &str) -> (r: Result<Scenario, LoadError>)
        requires
            plaintext@.len() < u32::MAX,
        ensures
            match r {
                Ok(sc) => scenario_ok(plaintext@, sc@),
                Err(e) => load_err_spec(plaintext@, e),
            },
    {
        let parsed = match crate::kvs::parse(plaintext) {
            Ok(p) => p,
            Err(g) => {
                return Err(LoadError::Grammar(g));
            },
        };
        let (kvs, _dups) = parsed;
        proof {
            lemma_split_count(plaintext@, seq!['\n']);
            assert(kvs@.dom().len() <= u32::MAX as nat);
            reveal_strlit("Version");
            assert("Version"@ =~= version_key());
            reveal_strlit("ReadKeyword");
            assert("ReadKeyword"@ =~= read_keyword_key());
            reveal_strlit("GameTitle");
            assert("GameTitle"@ =~= game_title_key());
        }
        let editor_version = match kvs.get_expect("Version") {
            Some(v) => v.clone(),
            None => {
                return Err(LoadError::MissingKey(MandatoryKey::Version));
            },
        };
        let id = match kvs.get_expect("ReadKeyword") {
            Some(v) => v.clone(),
            None => {
                return Err(LoadError::MissingKey(MandatoryKey::ReadKeyword));
            },
        };
        let title = match kvs.get_expect("GameTitle") {
            Some(v) => v.clone(),
            None => {
                return Err(LoadError::MissingKey(MandatoryKey::GameTitle));
            },
        };
        let stats = match stats_from_kvs(&kvs) {
            Ok(v) => v,
            Err(e) => {
                proof {
                    lemma_stats_err_excludes_ok(kvs@, e);
                }
                return Err(e);
            },
        };
        proof {
            assert(stats_run_ok(kvs@, stat_views(stats@)));
        }
        let races = match races_from_kvs(&kvs) {
            Ok(v) => v,
            Err(e) => {
                proof {
                    lemma_races_err_excludes_ok(kvs@, e);
                }
                return Err(e);
            },
        };
        proof {
            assert(races_run_ok(kvs@, race_views(races@)));
        }
        let classes = match classes_from_kvs(&kvs) {
            Ok(v) => v,
            Err(e) => {
                proof {
                    lemma_classes_err_excludes_ok(kvs@, e);
                }
                return Err(e);
            },
        };
        proof {
            assert(classes_run_ok(kvs@, class_views(classes@)));
        }
        let spell_realms = match spell_realms_from_kvs(&kvs) {
            Ok(v) => v,
            Err(e) => {
                proof {
                    lemma_realms_err_excludes_ok(kvs@, e);
                }
                return Err(e);
            },
        };
        proof {
            assert(realms_run_ok(kvs@, realm_views(spell_realms@)));
        }
        let items = match items_from_kvs(&kvs) {
            Ok(v) => v,
            Err(e) => {
                proof {
                    lemma_items_err_excludes_ok(kvs@, e);
                }
                return Err(e);
            },
        };
        proof {
            assert(items_run_ok(kvs@, item_views(items@)));
        }
        let monsters = match monsters_from_kvs(&kvs) {
            Ok(v) => v,
            Err(e) => {
                return Err(e);
            },
        };
        Ok(
            Scenario {
                editor_version,
                id,
                title,
                stats,
                races,
                classes,
                spell_realms,
                items,
                monsters,
            },
        )
    }

    /// Decodes a whole scenario from raw ciphertext bytes, first running
    /// the cipher engine.
    pub fn load_from_ciphertext(ciphertext: &[u8]) -> (r: Result<Scenario, LoadError>)
        requires
            ciphertext@.len() < u32::MAX,
        ensures
            match r {
                Ok(sc) => decrypted_text(ciphertext@) matches Some(t) && scenario_ok(t, sc@),
                Err(e) => match e {
                    LoadError::Crypto(ce) => crypto_err_spec(ciphertext@, ce),
                    _ => decrypted_text(ciphertext@) matches Some(t) && load_err_spec(t, e),
                },
            },
    {
        let plaintext = match decrypt(ciphertext) {
            Ok(s) => s,
            Err(ce) => {
                return Err(LoadError::Crypto(ce));
            },
        };
        Self::load_from_plaintext(plaintext.as_str())
    }
}

} // verus!
