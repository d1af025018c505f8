//! The outside cryptography, encoding, randomness and clock that the vault
//! relies on. Each item below makes one outside call and states what the
//! vault assumes of it.
use vstd::prelude::*;
use argon2::Argon2;
use base64::engine::general_purpose::STANDARD;
use base64::Engine;
use chacha20poly1305::aead::rand_core::RngCore;
use chacha20poly1305::aead::{Aead, OsRng};
use chacha20poly1305::{AeadCore, Key, KeyInit, XChaCha20Poly1305, XNonce};
use zeroize::Zeroize;

verus! {

#[verifier::external_type_specification]
#[verifier::external_body]
pub struct ExArgon2Error(argon2::Error);

#[verifier::external_type_specification]
#[verifier::external_body]
pub struct ExAeadError(chacha20poly1305::aead::Error);

#[verifier::external_type_specification]
#[verifier::external_body]
pub struct ExDecodeError(base64::DecodeError);

/// The 32-byte Argon2id key (default parameters) of a password and a salt.
pub uninterp spec fn argon2_key(password: Seq<u8>, salt: Seq<u8>) -> Seq<u8>;

/// What XChaCha20-Poly1305 decryption (no associated data) yields: the
/// plaintext when the tag verifies under the key and nonce, else nothing.
pub uninterp spec fn xchacha_open(key: Seq<u8>, nonce: Seq<u8>, ciphertext: Seq<u8>) -> Option<
    Seq<u8>,
>;

/// What standard, padded base64 decoding yields for a text.
pub uninterp spec fn base64_bytes(text: Seq<char>) -> Option<Seq<u8>>;

/// Relies on argon2's `Argon2::hash_password_into` with `Argon2::default()`:
/// deterministic in password and salt, and it fails only for a password
/// longer than 0xFFFF_FFFF bytes or a salt outside 8..=0xFFFF_FFFF bytes
/// (a 32-byte output is within its output bounds).
#[verifier::external_body]
pub(crate) fn argon2_hash(password: &[u8], salt: &[u8]) -> (r: Result<[u8; 32], argon2::Error>)
    ensures
        r matches Ok(k) ==> k@ == argon2_key(password@, salt@),
        password@.len() <= 0xFFFF_FFFF && 8 <= salt@.len() <= 0xFFFF_FFFF ==> r is Ok,
{
    let mut out = [0u8; 32];
    Argon2::default().hash_password_into(password, salt, &mut out)?;
    Ok(out)
}

/// Relies on chacha20poly1305's `Aead::encrypt` for `XChaCha20Poly1305`: it
/// fails only for a message of 2^32 - 1 blocks of 64 bytes or more; its
/// output is the message's length plus the 16-byte tag appended to it, and
/// decrypts under the same key and nonce to the message.
#[verifier::external_body]
pub(crate) fn xchacha_seal(key: &[u8], nonce: &[u8], message: &[u8]) -> (r: Result<
    Vec<u8>,
    chacha20poly1305::aead::Error,
>)
    requires
        key@.len() == 32,
        nonce@.len() == 24,
    ensures
        message@.len() <= 0xFFFF_FFFF ==> r is Ok,
        r matches Ok(c) ==> xchacha_open(key@, nonce@, c@) == Some(message@) && c@.len()
            == message@.len() + 16,
{
    XChaCha20Poly1305::new(Key::from_slice(key)).encrypt(XNonce::from_slice(nonce), message)
}

/// Relies on chacha20poly1305's `Aead::decrypt` for `XChaCha20Poly1305`: the
/// plaintext when the tag verifies, an error otherwise.
#[verifier::external_body]
pub(crate) fn xchacha_unseal(key: &[u8], nonce: &[u8], ciphertext: &[u8]) -> (r: Result<
    Vec<u8>,
    chacha20poly1305::aead::Error,
>)
    requires
        key@.len() == 32,
        nonce@.len() == 24,
    ensures
        match r {
            Ok(p) => xchacha_open(key@, nonce@, ciphertext@) == Some(p@),
            Err(_) => xchacha_open(key@, nonce@, ciphertext@) is None,
        },
{
    XChaCha20Poly1305::new(Key::from_slice(key)).decrypt(XNonce::from_slice(nonce), ciphertext)
}

/// Relies on `AeadCore::generate_nonce` for `XChaCha20Poly1305` with the
/// operating system's random source: 24 random bytes, of which nothing more
/// is known.
#[verifier::external_body]
pub(crate) fn fresh_nonce() -> (r: [u8; 24]) {
    let nonce = XChaCha20Poly1305::generate_nonce(&mut OsRng);
    let mut out = [0u8; 24];
    out.copy_from_slice(&nonce);
    out
}

/// Relies on `RngCore::fill_bytes` of the operating system's random source
/// (`OsRng`): 32 random bytes, of which nothing more is known.
#[verifier::external_body]
pub(crate) fn random_bytes_32() -> (r: [u8; 32]) {
    let mut out = [0u8; 32];
    OsRng.fill_bytes(&mut out);
    out
}

/// Relies on base64's `STANDARD.encode`: padded output, four characters for
/// each started group of three bytes (`encoded_len`), which decodes with
/// `STANDARD.decode` to the same bytes.
#[verifier::external_body]
pub(crate) fn b64_encode(bytes: &[u8]) -> (r: String)
    ensures
        base64_bytes(r@) == Some(bytes@),
        r@.len() == 4 * ((bytes@.len() + 2) / 3),
{
    STANDARD.encode(bytes)
}

/// Relies on base64's `STANDARD.decode`: the decoded bytes, or an error for a
/// text that is not standard padded base64.
#[verifier::external_body]
pub(crate) fn b64_decode(text: &str) -> (r: Result<Vec<u8>, base64::DecodeError>)
    ensures
        match r {
            Ok(b) => base64_bytes(text@) == Some(b@),
            Err(_) => base64_bytes(text@) is None,
        },
{
    STANDARD.decode(text)
}

/// Relies on uuid's `Uuid::new_v4`: a random version 4 identifier, handed
/// out as its 128-bit value.
#[verifier::external_body]
pub(crate) fn random_uuid() -> (r: u128) {
    uuid::Uuid::new_v4().as_u128()
}

/// Relies on time's `OffsetDateTime::now_utc`: the current time, handed out
/// as nanoseconds since the Unix epoch.
#[verifier::external_body]
pub(crate) fn now_unix_nanos() -> (r: i128) {
    time::OffsetDateTime::now_utc().unix_timestamp_nanos()
}

/// Relies on zeroize's `Zeroize` for byte arrays: every byte is overwritten
/// with zero.
#[verifier::external_body]
pub(crate) fn wipe_key(key: &mut [u8; 32])
    ensures
        final(key)@ == Seq::new(32, |i: int| 0u8),
    opens_invariants none
    no_unwind
{
    key.zeroize();
}

/// Relies on zeroize's `Zeroize` for `Vec<u8>`: the bytes and the spare
/// capacity are overwritten with zero, then the vector is emptied.
#[verifier::external_body]
pub(crate) fn wipe_bytes(bytes: &mut Vec<u8>)
    ensures
        final(bytes)@.len() == 0,
{
    bytes.zeroize();
}

} // verus!
