//! Tests of the cipher engine against the real DES/MD5 crates.

use block_modes::BlockMode;
use md5::Digest;

/// The fixed key: the first 8 bytes of the MD5 digest of the passphrase.
fn fixed_key() -> Vec<u8> {
    let digest = md5::Md5::digest(b"MadPoet");
    digest[..8].to_vec()
}

fn encrypt_pkcs7(plaintext: &[u8]) -> Vec<u8> {
    let key = fixed_key();
    let cipher =
        block_modes::Ecb::<des::Des, block_modes::block_padding::Pkcs7>::new_from_slices(&key, &[])
            .expect("key length is 8");
    cipher.encrypt_vec(plaintext)
}

#[test]
fn decrypt_recovers_known_plaintext() {
    let plaintext = "Version = \"1.0\"\nGameTitle = \"t\"\n";
    let ciphertext = encrypt_pkcs7(plaintext.as_bytes());
    assert_eq!(ciphertext.len() % 8, 0);
    let recovered = javardry_spoiler::cipher::decrypt(&ciphertext).expect("round trip");
    assert_eq!(recovered, plaintext);
}

#[test]
fn decrypt_recovers_non_ascii_plaintext() {
    let plaintext = "GameTitle = \"\u{72ac}\u{306e}\u{5192}\u{967a}\"";
    let ciphertext = encrypt_pkcs7(plaintext.as_bytes());
    let recovered = javardry_spoiler::cipher::decrypt(&ciphertext).expect("round trip");
    assert_eq!(recovered, plaintext);
}

#[test]
fn decrypt_rejects_unaligned_length() {
    let r = javardry_spoiler::cipher::decrypt(&[1, 2, 3, 4, 5, 6, 7]);
    assert_eq!(r, Err(javardry_spoiler::CryptoError::BadLength));
}

#[test]
fn decrypt_rejects_bad_padding() {
    // Encrypting a full block with no padding makes the decrypted final
    // block end in 0x00, which PKCS#7 rejects.
    let key = fixed_key();
    let cipher = block_modes::Ecb::<des::Des, block_modes::block_padding::NoPadding>::new_from_slices(
        &key,
        &[],
    )
    .expect("key length is 8");
    let ciphertext = cipher.encrypt_vec(&[0u8; 8]);
    let r = javardry_spoiler::cipher::decrypt(&ciphertext);
    assert_eq!(r, Err(javardry_spoiler::CryptoError::BadPadding));
}

#[test]
fn decrypt_rejects_non_utf8_plaintext() {
    let ciphertext = encrypt_pkcs7(&[0xff, 0xfe, 0xff]);
    let r = javardry_spoiler::cipher::decrypt(&ciphertext);
    assert_eq!(r, Err(javardry_spoiler::CryptoError::NotUtf8));
}
