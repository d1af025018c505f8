//! Key derivation and wrapping of the data key: the envelope around the vault.
use vstd::prelude::*;
use crate::error::{VaultError, VaultErrorKind, VaultErrorSeverity, VaultResult};
use crate::primitives::{argon2_hash, argon2_key, fresh_nonce, xchacha_open, xchacha_seal, xchacha_unseal};

verus! {

/// The data key that a wrapped key holds under a key-encryption key and a
/// nonce: the opened plaintext, when it opens and is exactly 32 bytes.
pub open spec fn unwrapped_key(wrapped: Seq<u8>, kek: Seq<u8>, nonce: Seq<u8>) -> Option<Seq<u8>> {
    match xchacha_open(kek, nonce, wrapped) {
        Some(d) => if d.len() == 32 {
            Some(d)
        } else {
            None
        },
        None => None,
    }
}

/// Whether Argon2 accepts a password and salt of these lengths.
pub open spec fn kdf_accepts(password: Seq<u8>, salt: Seq<u8>) -> bool {
    password.len() <= 0xFFFF_FFFF && 8 <= salt.len() <= 0xFFFF_FFFF
}

/// Derivation and wrapping of keys; it holds no state.
pub struct VaultCryptoManager;

/// Copies a 32-byte vector into an array.
pub(crate) fn key_array(bytes: &Vec<u8>) -> (r: [u8; 32])
    requires
        bytes@.len() == 32,
    ensures
        r@ == bytes@,
{
    let mut out = [0u8; 32];
    let mut i: usize = 0;
    while i < 32
        invariant
            0 <= i <= 32,
            bytes@.len() == 32,
            forall|j: int| 0 <= j < i ==> out@[j] == bytes@[j],
        decreases 32 - i,
    {
        out[i] = bytes[i];
        i = i + 1;
    }
    assert(out@ =~= bytes@);
    out
}

/// Copies a 24-byte vector into an array.
pub(crate) fn nonce_array(bytes: &Vec<u8>) -> (r: [u8; 24])
    requires
        bytes@.len() == 24,
    ensures
        r@ == bytes@,
{
    let mut out = [0u8; 24];
    let mut i: usize = 0;
    while i < 24
        invariant
            0 <= i <= 24,
            bytes@.len() == 24,
            forall|j: int| 0 <= j < i ==> out@[j] == bytes@[j],
        decreases 24 - i,
    {
        out[i] = bytes[i];
        i = i + 1;
    }
    assert(out@ =~= bytes@);
    out
}

impl VaultCryptoManager {
    /// Derives the key-encryption key from a password and a salt. Fails with a
    /// `Crypto` error only where the derivation itself refuses its inputs; a
    /// wrong password is not detected here.
    pub fn derive_kek(password: &[u8], salt: &[u8]) -> (r: VaultResult<[u8; 32]>)
        ensures
            r matches Ok(k) ==> k@ == argon2_key(password@, salt@),
            r matches Err(e) ==> e.kind == VaultErrorKind::Crypto && e.severity
                == VaultErrorSeverity::Blocking,
            kdf_accepts(password@, salt@) ==> r is Ok,
    {
        match argon2_hash(password, salt) {
            Ok(k) => Ok(k),
            Err(_) => Err(
                VaultError::new(
                    VaultErrorKind::Crypto,
                    VaultErrorSeverity::Blocking,
                    "Key derivation failed",
                    "E_CRYPTO_KDF",
                ),
            ),
        }
    }

    /// Wraps the data key under the key-encryption key with a nonce that is
    /// drawn fresh on every call; returns the wrapped key (the 32 encrypted
    /// bytes and a 16-byte tag) and that nonce.
    pub fn wrap_dek(dek: &[u8; 32], kek: &[u8; 32]) -> (r: VaultResult<(Vec<u8>, [u8; 24])>)
        ensures
            r matches Ok((w, n)) ==> unwrapped_key(w@, kek@, n@) == Some(dek@) && w@.len() == 48,
            r is Ok,
    {
        let nonce = fresh_nonce();
        match xchacha_seal(kek.as_slice(), nonce.as_slice(), dek.as_slice()) {
            Ok(w) => Ok((w, nonce)),
            Err(_) => Err(
                VaultError::new(
                    VaultErrorKind::Crypto,
                    VaultErrorSeverity::Blocking,
                    "Key wrapping failed",
                    "E_CRYPTO_WRAP",
                ),
            ),
        }
    }

    /// Unwraps the data key. Fails with a `Crypto` error when authentication
    /// fails (wrong key or tampering) or the plaintext is not 32 bytes.
    pub fn unwrap_dek(wrapped_dek: &[u8], kek: &[u8; 32], nonce: &[u8; 24]) -> (r: VaultResult<
        [u8; 32],
    >)
        ensures
            match unwrapped_key(wrapped_dek@, kek@, nonce@) {
                Some(d) => r matches Ok(k) && k@ == d,
                None => r matches Err(e) && e.kind == VaultErrorKind::Crypto && e.severity
                    == VaultErrorSeverity::Blocking,
            },
    {
        match xchacha_unseal(kek.as_slice(), nonce.as_slice(), wrapped_dek) {
            Ok(d) => {
                if d.len() == 32 {
                    Ok(key_array(&d))
                } else {
                    Err(
                        VaultError::new(
                            VaultErrorKind::Crypto,
                            VaultErrorSeverity::Blocking,
                            "Unwrapped key is not 32 bytes",
                            "E_CRYPTO_UNWRAP",
                        ),
                    )
                }
            },
            Err(_) => Err(
                VaultError::new(
                    VaultErrorKind::Crypto,
                    VaultErrorSeverity::Blocking,
                    "Key unwrapping failed",
                    "E_CRYPTO_UNWRAP",
                ),
            ),
        }
    }
}

} // verus!
