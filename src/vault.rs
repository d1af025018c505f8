//! The vault engine: the model of a vault, its state machine, the key
//! envelope and the framing of what is persisted.
use vstd::prelude::*;
use crate::crypto::{kdf_accepts, nonce_array, unwrapped_key, VaultCryptoManager};
use crate::entry::{Entry, EntryId};
use crate::error::{VaultError, VaultErrorKind, VaultErrorSeverity, VaultResult};
use crate::primitives::{
    argon2_key, b64_decode, b64_encode, base64_bytes, fresh_nonce, random_bytes_32, wipe_bytes,
    wipe_key, xchacha_open, xchacha_seal, xchacha_unseal,
};

pub mod laws;
pub mod store;

verus! {

/// The format version that this engine writes and accepts.
pub open spec fn format_version() -> Seq<char> {
    seq!['0', '.', '6', '.', '0']
}

/// The UTF-8 bytes of a password.
pub open spec fn password_bytes(password: Seq<char>) -> Seq<u8> {
    vstd::utf8::encode_utf8(password)
}

/// Where the vault is in its lifecycle.
#[derive(Clone, Copy, Debug, PartialEq, Eq, Structural)]
pub enum VaultState {
    /// No key material: no file, or never loaded.
    Uninitialized,
    /// The encrypted blob is held; the data key is not in memory.
    Locked,
    /// The data key is in memory and the entries are decrypted.
    Unlocked,
}

/// The state, the readiness flag and the last load error, which reading
/// the status consumes.
#[derive(Debug)]
pub struct VaultStatus {
    pub state: VaultState,
    pub ready: bool,
    pub last_error: Option<VaultError>,
}

/// The persisted key material and body, each binary field as base64 text.
#[derive(Debug)]
pub struct VaultCrypto {
    pub salt: String,
    pub wrapped_dek: String,
    pub dek_nonce: String,
    pub vault_nonce: String,
    pub vault_ciphertext: String,
}

/// The keys held in memory while unlocked; never written out unwrapped.
pub struct RuntimeKeys {
    pub dek: [u8; 32],
}

/// The whole on-disk artifact: format version and key material.
#[derive(Debug)]
pub struct SaveFileLayout {
    pub version: String,
    pub crypto: VaultCrypto,
}

/// Whether every field of a blob is empty.
pub open spec fn is_blank(c: VaultCrypto) -> bool {
    &&& c.salt@.len() == 0
    &&& c.wrapped_dek@.len() == 0
    &&& c.dek_nonce@.len() == 0
    &&& c.vault_nonce@.len() == 0
    &&& c.vault_ciphertext@.len() == 0
}

impl VaultCrypto {
    /// A blob with every field empty.
    pub fn blank() -> (r: VaultCrypto)
        ensures
            is_blank(r),
    {
        VaultCrypto {
            salt: String::new(),
            wrapped_dek: String::new(),
            dek_nonce: String::new(),
            vault_nonce: String::new(),
            vault_ciphertext: String::new(),
        }
    }

    /// A field-for-field copy.
    pub fn duplicate(&self) -> (r: VaultCrypto)
        ensures
            r == *self,
    {
        VaultCrypto {
            salt: self.salt.clone(),
            wrapped_dek: self.wrapped_dek.clone(),
            dek_nonce: self.dek_nonce.clone(),
            vault_nonce: self.vault_nonce.clone(),
            vault_ciphertext: self.vault_ciphertext.clone(),
        }
    }
}

/// The data key that a blob's envelope yields for a password: the salt,
/// nonce and wrapped key decode, the password and salt are accepted by the
/// key derivation, and the wrapped key opens under the derived key.
pub open spec fn sealed_key(c: VaultCrypto, password: Seq<u8>) -> Option<Seq<u8>> {
    match (base64_bytes(c.salt@), base64_bytes(c.dek_nonce@), base64_bytes(c.wrapped_dek@)) {
        (Some(salt), Some(nonce), Some(wrapped)) => if kdf_accepts(password, salt) && nonce.len()
            == 24 {
            unwrapped_key(wrapped, argon2_key(password, salt), nonce)
        } else {
            None
        },
        _ => None,
    }
}

/// The payload that a blob's body yields under a data key.
pub open spec fn sealed_body(c: VaultCrypto, dek: Seq<u8>) -> Option<Seq<u8>> {
    match (base64_bytes(c.vault_nonce@), base64_bytes(c.vault_ciphertext@)) {
        (Some(nonce), Some(ciphertext)) => if nonce.len() == 24 && dek.len() == 32 {
            xchacha_open(dek, nonce, ciphertext)
        } else {
            None
        },
        _ => None,
    }
}

/// What unlocking a blob with a password recovers: the data key and the
/// decrypted payload, or nothing when either layer does not open.
pub open spec fn unlock_outcome(c: VaultCrypto, password: Seq<u8>) -> Option<(Seq<u8>, Seq<u8>)> {
    match sealed_key(c, password) {
        Some(dek) => match sealed_body(c, dek) {
            Some(payload) => Some((dek, payload)),
            None => None,
        },
        None => None,
    }
}

/// The one error that both a wrong password and a blob that does not
/// decrypt give, so that neither can be told from the other.
pub open spec fn is_auth_failure(e: VaultError) -> bool {
    &&& e.kind == VaultErrorKind::Auth
    &&& e.severity == VaultErrorSeverity::Soft
    &&& e.message@ == "Password incorrect"@
    &&& e.code@ == "E_VAULT_AUTH"@
}

/// Whether storing a body with this nonce and ciphertext would repeat what
/// the blob already holds: a non-empty stored field that decodes to the
/// same bytes.
pub open spec fn repeats_body(c: VaultCrypto, nonce: Seq<u8>, ciphertext: Seq<u8>) -> bool {
    ||| (c.vault_nonce@.len() > 0 && base64_bytes(c.vault_nonce@) == Some(nonce))
    ||| (c.vault_ciphertext@.len() > 0 && base64_bytes(c.vault_ciphertext@) == Some(ciphertext))
}

/// Whether no two entries share an identifier.
pub open spec fn ids_unique(entries: Seq<Entry>) -> bool {
    forall|i: int, j: int|
        0 <= i < entries.len() && 0 <= j < entries.len() && i != j ==> #[trigger] entries[i].id
            != #[trigger] entries[j].id
}

/// Whether some entry has the identifier.
pub open spec fn has_id(entries: Seq<Entry>, id: EntryId) -> bool {
    exists|i: int| 0 <= i < entries.len() && #[trigger] entries[i].id == id
}

/// The model of a vault.
pub ghost struct VaultView {
    pub state: VaultState,
    pub ready: bool,
    pub path: Seq<char>,
    pub version: Seq<char>,
    pub entries: Seq<Entry>,
    pub crypto: VaultCrypto,
    pub dek: Option<Seq<u8>>,
    pub last_error: Option<VaultError>,
}

impl VaultView {
    /// The vault's invariant: the data key is resident exactly while
    /// unlocked, the entry store is empty unless unlocked, an uninitialized
    /// vault holds no key material, and identifiers are unique.
    pub open spec fn wf(self) -> bool {
        &&& (self.state == VaultState::Unlocked) == (self.dek is Some)
        &&& (self.dek matches Some(d) ==> d.len() == 32)
        &&& (self.state != VaultState::Unlocked ==> self.entries.len() == 0)
        &&& (self.state == VaultState::Uninitialized ==> is_blank(self.crypto))
        &&& ids_unique(self.entries)
        &&& self.version == format_version()
    }

    /// The same vault, locked: no data key, no entries.
    pub open spec fn locked(self) -> VaultView {
        VaultView { state: VaultState::Locked, dek: None, entries: Seq::empty(), ..self }
    }
}

/// The vault engine. One instance per application, used under exclusive
/// access.
pub struct Vault {
    path: String,
    version: String,
    state: VaultState,
    entries: Vec<Entry>,
    crypto: VaultCrypto,
    runtime: Option<RuntimeKeys>,
    ready: bool,
    last_error: Option<VaultError>,
}

impl View for Vault {
    type V = VaultView;

    closed spec fn view(&self) -> VaultView {
        VaultView {
            state: self.state,
            ready: self.ready,
            path: self.path@,
            version: self.version@,
            entries: self.entries@,
            crypto: self.crypto,
            dek: match self.runtime {
                Some(k) => Some(k.dek@),
                None => None,
            },
            last_error: self.last_error,
        }
    }
}

impl Drop for Vault {
    /// Teardown wipes the data key, so that it does not outlive the engine.
    fn drop(&mut self)
        opens_invariants none
        no_unwind
    {
        self.wipe_resident_key();
    }
}

/// The format version as a string.
fn format_version_string() -> (r: String)
    ensures
        r@ == format_version(),
{
    proof {
        reveal_strlit("0.6.0");
    }
    "0.6.0".to_owned()
}

/// The error for an operation that the current state does not allow.
pub(crate) fn access_error(message: &str) -> (r: VaultError)
    ensures
        r.kind == VaultErrorKind::Access,
        r.severity == VaultErrorSeverity::Blocking,
{
    VaultError::new(VaultErrorKind::Access, VaultErrorSeverity::Blocking, message, "E_VAULT_ACCESS")
}

/// The error for a password that does not open the vault, or a blob that
/// does not decrypt: the two are reported alike.
fn auth_error() -> (r: VaultError)
    ensures
        is_auth_failure(r),
{
    VaultError::new(VaultErrorKind::Auth, VaultErrorSeverity::Soft, "Password incorrect", "E_VAULT_AUTH")
}

/// A copy of secret bytes into a buffer that can be wiped.
fn secret_copy(bytes: &[u8]) -> (r: Vec<u8>)
    ensures
        r@ == bytes@,
{
    let mut out: Vec<u8> = Vec::new();
    let mut i: usize = 0;
    while i < bytes.len()
        invariant
            0 <= i <= bytes@.len(),
            out@ == bytes@.subrange(0, i as int),
        decreases bytes@.len() - i,
    {
        out.push(bytes[i]);
        i = i + 1;
    }
    assert(out@ =~= bytes@);
    out
}

/// Whether two byte strings are equal.
fn bytes_equal(a: &[u8], b: &[u8]) -> (r: bool)
    ensures
        r == (a@ == b@),
{
    if a.len() != b.len() {
        return false;
    }
    let mut i: usize = 0;
    while i < a.len()
        invariant
            a@.len() == b@.len(),
            0 <= i <= a@.len(),
            forall|j: int| 0 <= j < i ==> a@[j] == b@[j],
        decreases a@.len() - i,
    {
        if a[i] != b[i] {
            return false;
        }
        i = i + 1;
    }
    assert(a@ =~= b@);
    true
}

/// Whether a base64 field is non-empty and decodes to the given bytes.
fn field_holds(field: &String, bytes: &[u8]) -> (r: bool)
    ensures
        r == (field@.len() > 0 && base64_bytes(field@) == Some(bytes@)),
{
    if field.as_str().is_empty() {
        return false;
    }
    match b64_decode(field.as_str()) {
        Ok(prev) => bytes_equal(prev.as_slice(), bytes),
        Err(_) => false,
    }
}

/// Whether no two entries share an identifier.
fn unique_ids(entries: &Vec<Entry>) -> (r: bool)
    ensures
        r == ids_unique(entries@),
{
    let n = entries.len();
    let mut i: usize = 0;
    while i < n
        invariant
            n == entries@.len(),
            0 <= i <= n,
            forall|a: int, b: int|
                0 <= a < i && 0 <= b < n && a != b ==> #[trigger] entries@[a].id
                    != #[trigger] entries@[b].id,
        decreases n - i,
    {
        let mut j: usize = 0;
        while j < n
            invariant
                n == entries@.len(),
                0 <= i < n,
                0 <= j <= n,
                forall|a: int, b: int|
                    0 <= a < i && 0 <= b < n && a != b ==> #[trigger] entries@[a].id
                        != #[trigger] entries@[b].id,
                forall|b: int| 0 <= b < j && b != i ==> entries@[i as int].id != #[trigger] entries@[b].id,
            decreases n - j,
        {
            if j != i && entries[i].id == entries[j].id {
                assert(entries@[i as int].id == entries@[j as int].id);
                return false;
            }
            j = j + 1;
        }
        i = i + 1;
    }
    true
}

impl Vault {
    /// A fresh, uninitialized vault with no path.
    pub fn new() -> (r: Vault)
        ensures
            r@.wf(),
            r@.state == VaultState::Uninitialized,
            !r@.ready,
            r@.path.len() == 0,
            r@.entries.len() == 0,
            is_blank(r@.crypto),
            r@.last_error is None,
    {
        Vault::new_with_path(String::new())
    }

    /// A fresh, uninitialized vault whose file lives at `path`.
    pub fn new_with_path(path: String) -> (r: Vault)
        ensures
            r@.wf(),
            r@.state == VaultState::Uninitialized,
            !r@.ready,
            r@.path == path@,
            r@.entries.len() == 0,
            is_blank(r@.crypto),
            r@.last_error is None,
    {
        Vault {
            path,
            version: format_version_string(),
            state: VaultState::Uninitialized,
            entries: Vec::new(),
            crypto: VaultCrypto::blank(),
            runtime: None,
            ready: false,
            last_error: None,
        }
    }

    pub fn set_path(&mut self, path: String)
        ensures
            final(self)@ == (VaultView { path: path@, ..old(self)@ }),
    {
        self.path = path;
    }

    pub fn get_path(&self) -> (r: String)
        ensures
            r@ == self@.path,
    {
        self.path.clone()
    }

    /// Overwrites the resident data key with zeros and drops it.
    fn wipe_resident_key(&mut self)
        ensures
            final(self)@ == (VaultView { dek: None, ..old(self)@ }),
        opens_invariants none
        no_unwind
    {
        match &mut self.runtime {
            Some(keys) => wipe_key(&mut keys.dek),
            None => {},
        }
        self.runtime = None;
    }

    /// Overwrites the data key with zeros, drops it and empties the store.
    fn discard_secrets(&mut self)
        ensures
            final(self)@ == (VaultView { dek: None, entries: Seq::empty(), ..old(self)@ }),
    {
        self.wipe_resident_key();
        self.entries.clear();
    }

    /// Zeroizes the data key, discards the decrypted entries and moves to
    /// `Locked`, from any state. Hosts call it at teardown.
    pub fn lock(&mut self)
        requires
            old(self)@.wf(),
        ensures
            final(self)@ == old(self)@.locked(),
            final(self)@.wf(),
    {
        self.discard_secrets();
        self.state = VaultState::Locked;
    }

    /// Takes in what the host found at the vault's path: `None` when there
    /// is no file (first run), the error when it could not be read or
    /// parsed, or the parsed save file. A save file of another format
    /// version is refused. Any earlier key and entries are discarded first.
    /// On success the vault is ready, and `Locked` when a file was read;
    /// every failure leaves it `Uninitialized` and is kept for the next
    /// status read.
    pub fn load(&mut self, file: Option<Result<SaveFileLayout, VaultError>>) -> (r: VaultResult<()>)
        requires
            old(self)@.wf(),
        ensures
            final(self)@.wf(),
            final(self)@.dek is None,
            final(self)@.entries.len() == 0,
            final(self)@.path == old(self)@.path,
            final(self)@.version == old(self)@.version,
            match file {
                None => {
                    &&& r is Ok
                    &&& final(self)@.state == VaultState::Uninitialized
                    &&& final(self)@.ready
                    &&& is_blank(final(self)@.crypto)
                    &&& final(self)@.last_error == old(self)@.last_error
                },
                Some(Err(e)) => {
                    &&& r == Err::<(), VaultError>(e)
                    &&& final(self)@.state == VaultState::Uninitialized
                    &&& !final(self)@.ready
                    &&& is_blank(final(self)@.crypto)
                    &&& final(self)@.last_error == Some(e)
                },
                Some(Ok(layout)) => if layout.version@ == format_version() {
                    &&& r is Ok
                    &&& final(self)@.state == VaultState::Locked
                    &&& final(self)@.ready
                    &&& final(self)@.crypto == layout.crypto
                    &&& final(self)@.last_error == old(self)@.last_error
                } else {
                    &&& r matches Err(e) && e.kind == VaultErrorKind::Version && e.severity
                        == VaultErrorSeverity::Fatal
                    &&& final(self)@.state == VaultState::Uninitialized
                    &&& !final(self)@.ready
                    &&& is_blank(final(self)@.crypto)
                    &&& final(self)@.last_error == Some(r->Err_0)
                },
            },
    {
        self.discard_secrets();
        match file {
            None => {
                self.state = VaultState::Uninitialized;
                self.crypto = VaultCrypto::blank();
                self.ready = true;
                Ok(())
            },
            Some(Err(e)) => {
                self.state = VaultState::Uninitialized;
                self.crypto = VaultCrypto::blank();
                self.ready = false;
                self.last_error = Some(e.duplicate());
                Err(e)
            },
            Some(Ok(layout)) => {
                if layout.version == self.version {
                    self.crypto = layout.crypto;
                    self.state = VaultState::Locked;
                    self.ready = true;
                    Ok(())
                } else {
                    let e = VaultError::new(
                        VaultErrorKind::Version,
                        VaultErrorSeverity::Fatal,
                        "Incompatible vault version",
                        "E_VAULT_VERSION",
                    );
                    self.state = VaultState::Uninitialized;
                    self.crypto = VaultCrypto::blank();
                    self.ready = false;
                    self.last_error = Some(e.duplicate());
                    Err(e)
                }
            },
        }
    }

    /// The current state; unlike `get_status`, this read consumes nothing.
    pub fn state(&self) -> (r: VaultState)
        ensures
            r == self@.state,
    {
        self.state
    }

    /// The state and readiness, with the last load error, which this read
    /// consumes: a failure is reported once.
    pub fn get_status(&mut self) -> (r: VaultStatus)
        ensures
            r.state == old(self)@.state,
            r.ready == old(self)@.ready,
            r.last_error == old(self)@.last_error,
            final(self)@ == (VaultView { last_error: None, ..old(self)@ }),
    {
        VaultStatus { state: self.state, ready: self.ready, last_error: self.last_error.take() }
    }


    /// The data key that the stored envelope yields for a password.
    fn open_envelope(&self, password: &Vec<u8>) -> (r: Option<[u8; 32]>)
        ensures
            match sealed_key(self@.crypto, password@) {
                Some(d) => r matches Some(k) && k@ == d,
                None => r is None,
            },
    {
        let salt = match b64_decode(self.crypto.salt.as_str()) {
            Ok(s) => s,
            Err(_) => return None,
        };
        let nonce = match b64_decode(self.crypto.dek_nonce.as_str()) {
            Ok(n) => n,
            Err(_) => return None,
        };
        let wrapped = match b64_decode(self.crypto.wrapped_dek.as_str()) {
            Ok(w) => w,
            Err(_) => return None,
        };
        if password.len() > 0xFFFF_FFFF || salt.len() < 8 || salt.len() > 0xFFFF_FFFF || nonce.len()
            != 24 {
            return None;
        }
        let mut kek = match VaultCryptoManager::derive_kek(password.as_slice(), salt.as_slice()) {
            Ok(k) => k,
            Err(_) => return None,
        };
        let unwrapped = VaultCryptoManager::unwrap_dek(wrapped.as_slice(), &kek, &nonce_array(&nonce));
        wipe_key(&mut kek);
        match unwrapped {
            Ok(d) => Some(d),
            Err(_) => None,
        }
    }

    /// The payload that the stored body yields under a data key.
    fn open_body(&self, dek: &[u8; 32]) -> (r: Option<Vec<u8>>)
        ensures
            match sealed_body(self@.crypto, dek@) {
                Some(p) => r matches Some(v) && v@ == p,
                None => r is None,
            },
    {
        let nonce = match b64_decode(self.crypto.vault_nonce.as_str()) {
            Ok(n) => n,
            Err(_) => return None,
        };
        let ciphertext = match b64_decode(self.crypto.vault_ciphertext.as_str()) {
            Ok(c) => c,
            Err(_) => return None,
        };
        if nonce.len() != 24 {
            return None;
        }
        match xchacha_unseal(dek.as_slice(), nonce.as_slice(), ciphertext.as_slice()) {
            Ok(p) => Some(p),
            Err(_) => None,
        }
    }

    /// Sets the master password of an uninitialized vault: draws a fresh
    /// data key and salt, derives the key-encryption key, wraps the data key
    /// and keeps it resident, and moves to `Unlocked` with an empty store.
    /// A vault that already holds key material, resident or persisted, is
    /// refused: resetting one is a separate operation.
    pub fn set_master_pw(&mut self, master_password: &str) -> (r: VaultResult<()>)
        requires
            old(self)@.wf(),
        ensures
            final(self)@.wf(),
            old(self)@.state != VaultState::Uninitialized ==> (r matches Err(e) && e.kind
                == VaultErrorKind::Access && e.severity == VaultErrorSeverity::Blocking),
            r is Err ==> final(self)@ == old(self)@,
            old(self)@.state == VaultState::Uninitialized ==> (r is Ok <==> password_bytes(
                master_password@,
            ).len() <= 0xFFFF_FFFF),
            old(self)@.state == VaultState::Uninitialized ==> (r matches Err(e) ==> e.kind
                == VaultErrorKind::Validation),
            r is Ok ==> {
                &&& final(self)@.state == VaultState::Unlocked
                &&& final(self)@.entries.len() == 0
                &&& final(self)@.dek matches Some(d) && sealed_key(
                    final(self)@.crypto,
                    password_bytes(master_password@),
                ) == Some(d)
                &&& base64_bytes(final(self)@.crypto.salt@) matches Some(salt) && salt.len() == 32
                &&& base64_bytes(final(self)@.crypto.dek_nonce@) matches Some(n) && n.len() == 24
                &&& base64_bytes(final(self)@.crypto.wrapped_dek@) matches Some(w) && w.len() == 48
                &&& final(self)@.crypto.vault_nonce@.len() == 0
                &&& final(self)@.crypto.vault_ciphertext@.len() == 0
                &&& final(self)@.path == old(self)@.path
                &&& final(self)@.ready == old(self)@.ready
                &&& final(self)@.last_error == old(self)@.last_error
            },
    {
        match self.state {
            VaultState::Uninitialized => {},
            _ => return Err(access_error("A vault is already set up")),
        }
        let mut password = secret_copy(master_password.as_bytes());
        if password.len() > 0xFFFF_FFFF {
            wipe_bytes(&mut password);
            return Err(
                VaultError::new(
                    VaultErrorKind::Validation,
                    VaultErrorSeverity::Soft,
                    "Master password too long",
                    "E_VAULT_PASSWORD",
                ),
            );
        }
        let mut dek = random_bytes_32();
        let salt = random_bytes_32();
        let derived = VaultCryptoManager::derive_kek(password.as_slice(), salt.as_slice());
        wipe_bytes(&mut password);
        let mut kek = match derived {
            Ok(k) => k,
            Err(e) => {
                wipe_key(&mut dek);
                return Err(e);
            },
        };
        let wrapped = VaultCryptoManager::wrap_dek(&dek, &kek);
        wipe_key(&mut kek);
        let (wrapped_dek, dek_nonce) = match wrapped {
            Ok(w) => w,
            Err(e) => {
                wipe_key(&mut dek);
                return Err(e);
            },
        };
        self.crypto = VaultCrypto {
            salt: b64_encode(salt.as_slice()),
            wrapped_dek: b64_encode(wrapped_dek.as_slice()),
            dek_nonce: b64_encode(dek_nonce.as_slice()),
            vault_nonce: String::new(),
            vault_ciphertext: String::new(),
        };
        self.runtime = Some(RuntimeKeys { dek });
        wipe_key(&mut dek);
        self.state = VaultState::Unlocked;
        Ok(())
    }


    /// Encrypts a payload with the resident data key under a nonce drawn
    /// fresh for this call, and stores nonce and ciphertext in the blob. A
    /// nonce or ciphertext equal to the stored one is refused, so that two
    /// encryptions never leave the same of either. Needs the data key.
    pub fn encrypt_vault(&mut self, payload: &[u8]) -> (r: VaultResult<()>)
        requires
            old(self)@.wf(),
        ensures
            final(self)@.wf(),
            r is Err ==> final(self)@ == old(self)@,
            old(self)@.dek is None ==> (r matches Err(e) && e.kind == VaultErrorKind::Access
                && e.severity == VaultErrorSeverity::Blocking),
            old(self)@.dek is Some ==> (r matches Err(e) ==> e.kind == VaultErrorKind::Crypto),
            old(self)@.dek is Some && old(self)@.crypto.vault_nonce@.len() == 0
                && old(self)@.crypto.vault_ciphertext@.len() == 0 && payload@.len() <= 0xFFFF_FFFF
                ==> r is Ok,
            r is Ok ==> {
                &&& old(self)@.dek matches Some(d) && sealed_body(final(self)@.crypto, d) == Some(
                    payload@,
                )
                &&& base64_bytes(final(self)@.crypto.vault_nonce@) matches Some(n) && n.len() == 24
                &&& final(self)@ == (VaultView {
                    crypto: VaultCrypto {
                        vault_nonce: final(self)@.crypto.vault_nonce,
                        vault_ciphertext: final(self)@.crypto.vault_ciphertext,
                        ..old(self)@.crypto
                    },
                    ..old(self)@
                })
                &&& final(self)@.crypto.vault_nonce@ != old(self)@.crypto.vault_nonce@
                &&& final(self)@.crypto.vault_ciphertext@ != old(self)@.crypto.vault_ciphertext@
            },
    {
        let mut dek = match &self.runtime {
            Some(keys) => keys.dek,
            None => return Err(access_error("Vault locked, cannot encrypt")),
        };
        let nonce = fresh_nonce();
        let sealed = xchacha_seal(dek.as_slice(), nonce.as_slice(), payload);
        wipe_key(&mut dek);
        let ciphertext = match sealed {
            Ok(c) => c,
            Err(_) => return Err(
                VaultError::new(
                    VaultErrorKind::Crypto,
                    VaultErrorSeverity::Blocking,
                    "Vault encryption failed",
                    "E_CRYPTO_SEAL",
                ),
            ),
        };
        self.store_body(&nonce, &ciphertext)
    }

    /// Stores a freshly sealed body: its nonce and ciphertext, as base64.
    /// Refused, with nothing changed, when either would repeat what the blob
    /// already holds.
    fn store_body(&mut self, nonce: &[u8; 24], ciphertext: &Vec<u8>) -> (r: VaultResult<()>)
        requires
            old(self)@.wf(),
            old(self)@.state == VaultState::Unlocked,
        ensures
            final(self)@.wf(),
            r is Err <==> repeats_body(old(self)@.crypto, nonce@, ciphertext@),
            r matches Err(e) ==> e.kind == VaultErrorKind::Crypto && e.severity
                == VaultErrorSeverity::Blocking && final(self)@ == old(self)@,
            r is Ok ==> {
                &&& base64_bytes(final(self)@.crypto.vault_nonce@) == Some(nonce@)
                &&& base64_bytes(final(self)@.crypto.vault_ciphertext@) == Some(ciphertext@)
                &&& final(self)@ == (VaultView {
                    crypto: VaultCrypto {
                        vault_nonce: final(self)@.crypto.vault_nonce,
                        vault_ciphertext: final(self)@.crypto.vault_ciphertext,
                        ..old(self)@.crypto
                    },
                    ..old(self)@
                })
                &&& final(self)@.crypto.vault_nonce@ != old(self)@.crypto.vault_nonce@
                &&& ciphertext@.len() > 0 ==> final(self)@.crypto.vault_ciphertext@
                    != old(self)@.crypto.vault_ciphertext@
            },
    {
        if field_holds(&self.crypto.vault_nonce, nonce.as_slice()) || field_holds(
            &self.crypto.vault_ciphertext,
            ciphertext.as_slice(),
        ) {
            return Err(
                VaultError::new(
                    VaultErrorKind::Crypto,
                    VaultErrorSeverity::Blocking,
                    "Refusing to repeat a nonce",
                    "E_CRYPTO_NONCE",
                ),
            );
        }
        self.crypto.vault_nonce = b64_encode(nonce.as_slice());
        self.crypto.vault_ciphertext = b64_encode(ciphertext.as_slice());
        Ok(())
    }

    /// Serializes the entry list with `encode`, encrypts it as
    /// `encrypt_vault` does, and returns the save file for the host to
    /// write. Only from `Unlocked`. Nothing is changed on failure.
    pub fn save<E>(&mut self, encode: E) -> (r: VaultResult<SaveFileLayout>) where
        E: Fn(&Vec<Entry>) -> Option<Vec<u8>>,
        requires
            old(self)@.wf(),
            forall|es: &Vec<Entry>| encode.requires((es,)),
        ensures
            final(self)@.wf(),
            r is Err ==> final(self)@ == old(self)@,
            old(self)@.state != VaultState::Unlocked ==> (r matches Err(e) && e.kind
                == VaultErrorKind::Access && e.severity == VaultErrorSeverity::Blocking),
            old(self)@.state == VaultState::Unlocked ==> (r matches Err(e) ==> (e.kind
                == VaultErrorKind::Crypto || (e.kind == VaultErrorKind::Internal && exists|
                es: &Vec<Entry>,
            | es@ == old(self)@.entries && encode.ensures((es,), None)))),
            old(self)@.state == VaultState::Unlocked && (forall|es: &Vec<Entry>, o: Option<Vec<u8>>|
                #[trigger] encode.ensures((es,), o) ==> (o matches Some(p) && p@.len()
                    <= 0xFFFF_FFFF)) && old(self)@.crypto.vault_nonce@.len() == 0
                && old(self)@.crypto.vault_ciphertext@.len() == 0 ==> r is Ok,
            r matches Ok(layout) ==> {
                &&& old(self)@.dek matches Some(d) && exists|es: &Vec<Entry>, p: Vec<u8>|
                    es@ == old(self)@.entries && #[trigger] encode.ensures((es,), Some(p))
                        && sealed_body(final(self)@.crypto, d) == Some(p@)
                &&& final(self)@ == (VaultView {
                    crypto: VaultCrypto {
                        vault_nonce: final(self)@.crypto.vault_nonce,
                        vault_ciphertext: final(self)@.crypto.vault_ciphertext,
                        ..old(self)@.crypto
                    },
                    ..old(self)@
                })
                &&& final(self)@.crypto.vault_nonce@ != old(self)@.crypto.vault_nonce@
                &&& final(self)@.crypto.vault_ciphertext@ != old(self)@.crypto.vault_ciphertext@
                &&& layout.version@ == final(self)@.version
                &&& layout.crypto == final(self)@.crypto
            },
    {
        match self.state {
            VaultState::Unlocked => {},
            _ => return Err(access_error("Vault not accessible, cannot save")),
        }
        let encoded = encode(&self.entries);
        let mut payload = match encoded {
            Some(p) => p,
            None => return Err(
                VaultError::new(
                    VaultErrorKind::Internal,
                    VaultErrorSeverity::Blocking,
                    "Entries could not be serialized",
                    "E_VAULT_SERIALIZE",
                ),
            ),
        };
        let ghost sealed = payload;
        let done = self.encrypt_vault(payload.as_slice());
        wipe_bytes(&mut payload);
        match done {
            Ok(()) => {
                assert(encode.ensures((&old(self).entries,), Some(sealed)));
                Ok(self.convert_to_savefile())
            },
            Err(e) => Err(e),
        }
    }

    /// Unlocks a locked vault with a password: re-derives the key-encryption
    /// key from the stored salt, unwraps the data key, decrypts the body and
    /// hands the plaintext to `decode`, which turns it into entries; the
    /// plaintext is wiped right after. A password that does not open the
    /// envelope and a blob that does not decrypt give the same `Auth` error.
    /// A payload that `decode` refuses, or whose identifiers repeat, is a
    /// `Parse` error. Nothing is changed on failure.
    pub fn unlock<D>(&mut self, password: &str, decode: D) -> (r: VaultResult<()>) where
        D: Fn(&[u8]) -> Option<Vec<Entry>>,
        requires
            old(self)@.wf(),
            forall|b: &[u8]| decode.requires((b,)),
        ensures
            final(self)@.wf(),
            r is Err ==> final(self)@ == old(self)@,
            old(self)@.state != VaultState::Locked ==> (r matches Err(e) && e.kind
                == VaultErrorKind::Access && e.severity == VaultErrorSeverity::Blocking),
            old(self)@.state == VaultState::Locked ==> match unlock_outcome(
                old(self)@.crypto,
                password_bytes(password@),
            ) {
                None => r matches Err(e) && is_auth_failure(e),
                Some((dek, payload)) => {
                    &&& (forall|b: &[u8], out: Option<Vec<Entry>>|
                        b@ == payload && #[trigger] decode.ensures((b,), out) ==> (out matches Some(
                            es,
                        ) && ids_unique(es@))) ==> r is Ok
                    &&& r is Ok ==> exists|b: &[u8], es: Vec<Entry>|
                        b@ == payload && #[trigger] decode.ensures((b,), Some(es))
                            && final(self)@ == (VaultView {
                            state: VaultState::Unlocked,
                            dek: Some(dek),
                            entries: es@,
                            ..old(self)@
                        })
                    &&& r matches Err(e) ==> e.kind == VaultErrorKind::Parse && exists|
                        b: &[u8],
                        out: Option<Vec<Entry>>,
                    |
                        b@ == payload && #[trigger] decode.ensures((b,), out) && (out is None
                            || !ids_unique(out->Some_0@))
                },
            },
    {
        match self.state {
            VaultState::Locked => {},
            _ => return Err(access_error("Cannot unlock a vault that is not locked")),
        }
        let mut secret = secret_copy(password.as_bytes());
        let opened = self.open_envelope(&secret);
        wipe_bytes(&mut secret);
        let mut dek = match opened {
            Some(d) => d,
            None => return Err(auth_error()),
        };
        let mut plaintext = match self.open_body(&dek) {
            Some(p) => p,
            None => {
                wipe_key(&mut dek);
                return Err(auth_error());
            },
        };
        let ghost opened_payload = plaintext@;
        let view = plaintext.as_slice();
        let decoded = decode(view);
        assert(decode.ensures((view,), decoded));
        wipe_bytes(&mut plaintext);
        let entries = match decoded {
            Some(es) => es,
            None => {
                wipe_key(&mut dek);
                return Err(
                    VaultError::new(
                        VaultErrorKind::Parse,
                        VaultErrorSeverity::Blocking,
                        "Failed to parse vault entries",
                        "E_VAULT_PAYLOAD",
                    ),
                );
            },
        };
        if !unique_ids(&entries) {
            wipe_key(&mut dek);
            return Err(
                VaultError::new(
                    VaultErrorKind::Parse,
                    VaultErrorSeverity::Blocking,
                    "Vault entries repeat an identifier",
                    "E_VAULT_PAYLOAD",
                ),
            );
        }
        self.entries = entries;
        self.runtime = Some(RuntimeKeys { dek });
        wipe_key(&mut dek);
        self.state = VaultState::Unlocked;
        Ok(())
    }


    /// The save file for the current blob.
    fn convert_to_savefile(&self) -> (r: SaveFileLayout)
        ensures
            r.version@ == self@.version,
            r.crypto == self@.crypto,
    {
        SaveFileLayout { version: self.version.clone(), crypto: self.crypto.duplicate() }
    }
}


} // verus!
