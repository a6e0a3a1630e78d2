//! Error taxonomy of the decode pipeline.
//!
//! Every failure anywhere in the pipeline aborts the whole load and is
//! surfaced to the caller; the only non-fatal condition is a duplicate key
//! in the key/value store, which is reported as a warning value, never as
//! an error.

use vstd::prelude::*;

verus! {

/// Failure of the cipher engine.
#[derive(Clone, Copy, Debug, PartialEq, Eq, Structural)]
pub enum CryptoError {
    /// The ciphertext length is not a multiple of the 8-byte block size.
    BadLength,
    /// The trailing padding bytes of the final block are malformed.
    BadPadding,
    /// The unpadded bytes are not valid UTF-8 text.
    NotUtf8,
}

/// Failure of the key/value store grammar, with the index of the offending
/// line (among the lines of the input, counted from 0).
#[derive(Clone, Copy, Debug, PartialEq, Eq, Structural)]
pub enum GrammarError {
    /// No `[A-Za-z0-9_]+` identifier starts the line.
    NoKey { line: usize },
    /// The key is not followed by a literal `=`.
    MissingEquals { line: usize },
    /// The `=` is not followed by an opening `"`.
    MissingOpenQuote { line: usize },
    /// The line does not end in a closing `"` after the opening quote.
    MissingCloseQuote { line: usize },
}

/// Failure to decode one entity field.
///
/// `Number` covers every malformed scalar token, integer or boolean.
#[derive(Clone, Copy, Debug, PartialEq, Eq, Structural)]
pub enum FieldError {
    /// The text split into `actual` fields where the schema demands
    /// `expected` (an exact count, or a minimum for monsters).
    Arity { expected: u64, actual: u64 },
    /// A scalar token failed to parse as its declared type.
    Number,
    /// An enum-coded field holds a code outside the fixed code table.
    UnknownEnum { value: u8 },
    /// A flag-set field decodes to a bit outside the bits its mask defines;
    /// `bits` is the offending accumulated bit pattern.
    UnknownFlagBit { bits: u32 },
    /// An equip-mask or item-reference sub-field does not match its
    /// `name[N]` token shape (with `N` in the valid positional range).
    BadMaskToken,
}

/// The scalar keys the aggregator demands from the store.
#[derive(Clone, Copy, Debug, PartialEq, Eq, Structural)]
pub enum MandatoryKey {
    /// `Version`: the editor version string.
    Version,
    /// `ReadKeyword`: the scenario id string.
    ReadKeyword,
    /// `GameTitle`: the scenario title string.
    GameTitle,
    /// `SpellLvNum`: the number of spell levels per realm.
    SpellLvNum,
    /// `ExclusiveUseOfMonsters`: whether the last spell realm is
    /// monster-only.
    ExclusiveUseOfMonsters,
}

/// The entity type a field error belongs to.
#[derive(Clone, Copy, Debug, PartialEq, Eq, Structural)]
pub enum EntityKind {
    Stat,
    Race,
    Class,
    SpellRealm,
    Item,
    Monster,
}

/// Failure of a whole load, wrapping the stage that failed.
#[derive(Clone, Copy, Debug, PartialEq, Eq, Structural)]
pub enum LoadError {
    /// The cipher engine failed on the raw bytes.
    Crypto(CryptoError),
    /// A line of the decrypted text broke the key/value grammar.
    Grammar(GrammarError),
    /// A mandatory scalar key is absent from the store.
    MissingKey(MandatoryKey),
    /// A mandatory scalar key is present but its value is malformed.
    BadScalar(MandatoryKey),
    /// Decoding entity `id` of type `kind` failed; decoding a sequence of
    /// entities aborts at its first failure.
    Entity { kind: EntityKind, id: u32, err: FieldError },
}

} // verus!
