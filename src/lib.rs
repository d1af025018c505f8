//! An encrypted-at-rest credential vault: envelope encryption of a per-vault
//! data key under a password-derived key, a lock/unlock state machine, the
//! entry store and the error taxonomy that the vault reports to its callers.
//!
//! Reading and writing the vault file and turning entries into JSON is left
//! to the host; the engine hands out and takes in plain values.

pub mod error;
pub mod primitives;
pub mod crypto;
pub mod entry;
pub mod vault;

pub use error::{VaultError, VaultErrorKind, VaultErrorSeverity, VaultResult};
pub use crypto::VaultCryptoManager;
pub use entry::{Entry, EntryDraft, EntryId, EntryPublic, Strength, Timestamp, UpdateEntry};
pub use vault::{RuntimeKeys, SaveFileLayout, Vault, VaultCrypto, VaultState, VaultStatus};
