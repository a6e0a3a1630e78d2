//! Decoder for encrypted game-scenario data files.
//!
//! The pipeline is strictly linear: ciphertext bytes are decrypted into
//! UTF-8 text ([`cipher`]), the text is parsed into a flat key/value store
//! ([`kvs`]), and the store is decoded into typed entities (stats, races,
//! classes, spell realms, items, monsters) which the [`scenario`] module
//! aggregates into one immutable [`Scenario`].

pub mod cipher;
pub mod class;
pub mod error;
pub mod item;
pub mod kvs;
pub mod masks;
pub mod monster;
pub mod race;
pub mod render;
pub mod scenario;
pub mod spell;
pub mod stat;
pub mod text;
pub mod util;

pub use crate::class::Class;
pub use crate::error::CryptoError;
pub use crate::error::EntityKind;
pub use crate::error::FieldError;
pub use crate::error::GrammarError;
pub use crate::error::LoadError;
pub use crate::error::MandatoryKey;
pub use crate::item::Item;
pub use crate::item::ItemKind;
pub use crate::kvs::Duplicate;
pub use crate::kvs::Kvs;
pub use crate::masks::DebuffMask;
pub use crate::masks::MonsterKindMask;
pub use crate::masks::ResistMask;
pub use crate::monster::Monster;
pub use crate::monster::MonsterFollower;
pub use crate::monster::MonsterKind;
pub use crate::race::Race;
pub use crate::scenario::Scenario;
pub use crate::spell::Spell;
pub use crate::spell::SpellRealm;
pub use crate::stat::Stat;
