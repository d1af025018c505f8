use vstd::prelude::*;

verus! {

/// What went wrong, for programmatic handling.
#[derive(Clone, Copy, Debug, PartialEq, Eq, Structural)]
pub enum VaultErrorKind {
    Io,
    Parse,
    Version,
    Access,
    Auth,
    Crypto,
    NotFound,
    Internal,
    Validation,
}

/// How the caller should treat the error.
///
/// `Soft`: informational, nothing changed. `Blocking`: the operation was
/// aborted and the vault stays usable as it was. `Fatal`: the vault is
/// unusable until the cause is corrected.
#[derive(Clone, Copy, Debug, PartialEq, Eq, Structural)]
pub enum VaultErrorSeverity {
    Soft,
    Blocking,
    Fatal,
}

/// An error surfaced by the vault: kind, severity, a message for humans and
/// a stable code.
#[derive(Debug)]
pub struct VaultError {
    pub kind: VaultErrorKind,
    pub severity: VaultErrorSeverity,
    pub message: String,
    pub code: String,
}

pub type VaultResult<T> = Result<T, VaultError>;

impl VaultError {
    pub fn new(kind: VaultErrorKind, severity: VaultErrorSeverity, message: &str, code: &str) -> (r:
        VaultError)
        ensures
            r.kind == kind,
            r.severity == severity,
            r.message@ == message@,
            r.code@ == code@,
    {
        VaultError { kind, severity, message: message.to_owned(), code: code.to_owned() }
    }

    /// A field-for-field copy.
    pub fn duplicate(&self) -> (r: VaultError)
        ensures
            r == *self,
    {
        VaultError {
            kind: self.kind,
            severity: self.severity,
            message: self.message.clone(),
            code: self.code.clone(),
        }
    }

    /// The vault file exists but could not be read.
    pub fn read_failed(message: String) -> (r: VaultError)
        ensures
            r.kind == VaultErrorKind::Io,
            r.severity == VaultErrorSeverity::Fatal,
            r.message == message,
    {
        VaultError { kind: VaultErrorKind::Io, severity: VaultErrorSeverity::Fatal, message, code: "E_VAULT_READ".to_owned() }
    }

    /// The vault file could be read but is not a well-formed save file.
    pub fn parse_failed(message: String) -> (r: VaultError)
        ensures
            r.kind == VaultErrorKind::Parse,
            r.severity == VaultErrorSeverity::Fatal,
            r.message == message,
    {
        VaultError { kind: VaultErrorKind::Parse, severity: VaultErrorSeverity::Fatal, message, code: "E_VAULT_PARSE".to_owned() }
    }

    /// The save file could not be written; the vault in memory is unchanged.
    pub fn write_failed(message: String) -> (r: VaultError)
        ensures
            r.kind == VaultErrorKind::Io,
            r.severity == VaultErrorSeverity::Blocking,
            r.message == message,
    {
        VaultError { kind: VaultErrorKind::Io, severity: VaultErrorSeverity::Blocking, message, code: "E_VAULT_WRITE".to_owned() }
    }
}

} // verus!
