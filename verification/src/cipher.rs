//! Cipher engine: recovers the scenario plaintext from its encrypted file.
//!
//! The key is the first 8 bytes of the MD5 digest of a fixed 7-byte ASCII
//! passphrase; the file is DES in electronic-codebook mode with PKCS#7
//! padding.  This is deliberately the weak legacy scheme of the scenario
//! editor, reproduced exactly, not strengthened.

use crate::error::CryptoError;
use block_modes::BlockMode;
use vstd::prelude::*;

verus! {

/// The fixed passphrase bytes, `MadPoet` in ASCII.
pub open spec fn passphrase() -> Seq<u8> {
    seq![0x4du8, 0x61u8, 0x64u8, 0x50u8, 0x6fu8, 0x65u8, 0x74u8]
}

/// The MD5 digest (16 bytes) of a byte sequence.
pub uninterp spec fn md5_digest(data: Seq<u8>) -> Seq<u8>;

/// What DES decryption in electronic-codebook mode followed by PKCS#7
/// unpadding yields for an 8-byte key and a ciphertext whose length is a
/// multiple of 8: the unpadded plaintext bytes, or nothing when the
/// trailing padding is malformed.
pub uninterp spec fn des_ecb_unpadded(key: Seq<u8>, ciphertext: Seq<u8>) -> Option<Seq<u8>>;

/// Computes the MD5 digest of `data`.
///
/// Relies on `md5::Md5` through the `md5::Digest` trait: the digest is a
/// function of the input bytes alone and is always 16 bytes long.
#[verifier::external_body]
fn md5_of(data: &[u8]) -> (r: Vec<u8>)
    ensures
        r@ == md5_digest(data@),
        r@.len() == 16,
{
    let digest = <md5::Md5 as md5::Digest>::digest(data);
    digest.to_vec()
}

/// Decrypts `ciphertext` with DES-ECB under `key` and removes the PKCS#7
/// padding.
///
/// Relies on `block_modes::Ecb::<des::Des, Pkcs7>`: `new_from_slices`
/// accepts any 8-byte key (ECB ignores the empty IV), and `decrypt_vec`
/// on a ciphertext of block-aligned length fails exactly when the
/// decrypted padding is malformed, else returns the unpadded bytes, which
/// are never longer than the ciphertext.
#[verifier::external_body]
fn des_ecb_decrypt(key: &[u8], ciphertext: &[u8]) -> (r: Option<Vec<u8>>)
    requires
        key@.len() == 8,
        ciphertext@.len() % 8 == 0,
    ensures
        match r {
            Some(p) => des_ecb_unpadded(key@, ciphertext@) == Some(p@) && p@.len()
                <= ciphertext@.len(),
            None => des_ecb_unpadded(key@, ciphertext@) is None,
        },
{
    let cipher = match block_modes::Ecb::<des::Des, block_modes::block_padding::Pkcs7>::new_from_slices(
        key,
        &[],
    ) {
        Ok(c) => c,
        Err(_) => return None,
    };
    match cipher.decrypt_vec(ciphertext) {
        Ok(p) => Some(p),
        Err(_) => None,
    }
}

/// Turns bytes into the `String` they spell in UTF-8.
///
/// Relies on `String::from_utf8`: it succeeds exactly on valid UTF-8 and
/// returns the decoded characters.
#[verifier::external_body]
fn utf8_to_string(bytes: Vec<u8>) -> (r: Option<String>)
    ensures
        match r {
            Some(s) => vstd::utf8::valid_utf8(bytes@) && s@ == vstd::utf8::decode_utf8(bytes@),
            None => !vstd::utf8::valid_utf8(bytes@),
        },
{
    match String::from_utf8(bytes) {
        Ok(s) => Some(s),
        Err(_) => None,
    }
}

/// Decoding valid UTF-8 never yields more characters than there were
/// bytes: every scalar takes at least one byte.
proof fn lemma_decode_utf8_len(bytes: Seq<u8>)
    requires
        vstd::utf8::valid_utf8(bytes),
    ensures
        vstd::utf8::decode_utf8(bytes).len() <= bytes.len(),
    decreases bytes.len(),
{
    if bytes.len() != 0 {
        assert(vstd::utf8::length_of_first_scalar(bytes) >= 1);
        lemma_decode_utf8_len(vstd::utf8::pop_first_scalar(bytes));
    }
}

/// The block-cipher key: the first 8 bytes of the passphrase digest.
pub open spec fn cipher_key() -> Seq<u8> {
    md5_digest(passphrase()).take(8)
}

/// Derives the fixed 8-byte key from a passphrase.
fn make_key(password: &[u8]) -> (r: Vec<u8>)
    ensures
        r@ == md5_digest(password@).take(8),
        r@.len() == 8,
{
    let digest = md5_of(password);
    let mut key: Vec<u8> = Vec::new();
    let mut i: usize = 0;
    while i < 8
        invariant
            0 <= i <= 8,
            digest@.len() == 16,
            key@ == digest@.take(i as int),
        decreases 8 - i,
    {
        key.push(digest[i]);
        proof {
            assert(digest@.take(i + 1) =~= digest@.take(i as int).push(digest@[i as int]));
        }
        i = i + 1;
    }
    key
}

/// The plaintext an encrypted file spells: the unpadded DES-ECB
/// decryption under the fixed key, decoded as UTF-8; nothing when any
/// stage fails.
pub open spec fn decrypted_text(ct: Seq<u8>) -> Option<Seq<char>> {
    if ct.len() % 8 != 0 {
        Option::None
    } else {
        match des_ecb_unpadded(cipher_key(), ct) {
            Option::Some(p) => if vstd::utf8::valid_utf8(p) {
                Option::Some(vstd::utf8::decode_utf8(p))
            } else {
                Option::None
            },
            Option::None => Option::None,
        }
    }
}

/// Which cipher error a ciphertext yields: each error names exactly the
/// first stage that fails.
pub open spec fn crypto_err_spec(ct: Seq<u8>, e: CryptoError) -> bool {
    match e {
        CryptoError::BadLength => ct.len() % 8 != 0,
        CryptoError::BadPadding => ct.len() % 8 == 0 && des_ecb_unpadded(cipher_key(), ct) is None,
        CryptoError::NotUtf8 => ct.len() % 8 == 0 && (des_ecb_unpadded(cipher_key(), ct)
            matches Some(p) && !vstd::utf8::valid_utf8(p)),
    }
}

/// Recovers the plaintext of an encrypted scenario file.
///
/// The result is pinned down over [`md5_digest`] and [`des_ecb_unpadded`]:
/// each error names the first stage that fails, and success returns
/// exactly the UTF-8 decoding of the unpadded DES-ECB decryption under the
/// fixed passphrase key, never longer than the ciphertext.
pub fn decrypt(ciphertext: &[u8]) -> (r: Result<String, CryptoError>)
    ensures
        match r {
            Ok(s) => decrypted_text(ciphertext@) == Some(s@) && s@.len() <= ciphertext@.len(),
            Err(e) => crypto_err_spec(ciphertext@, e) && decrypted_text(ciphertext@) is None,
        },
{
    if ciphertext.len() % 8 != 0 {
        return Err(CryptoError::BadLength);
    }
    let mut password: Vec<u8> = Vec::new();
    password.push(0x4d);
    password.push(0x61);
    password.push(0x64);
    password.push(0x50);
    password.push(0x6f);
    password.push(0x65);
    password.push(0x74);
    proof {
        assert(password@ =~= passphrase());
    }
    let key = make_key(password.as_slice());
    let unpadded = match des_ecb_decrypt(key.as_slice(), ciphertext) {
        Some(p) => p,
        None => {
            return Err(CryptoError::BadPadding);
        },
    };
    let ghost unpadded_view = unpadded@;
    match utf8_to_string(unpadded) {
        Some(s) => {
            proof {
                lemma_decode_utf8_len(unpadded_view);
            }
            Ok(s)
        },
        None => Err(CryptoError::NotUtf8),
    }
}

} // verus!
