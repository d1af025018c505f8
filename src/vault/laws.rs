//! Properties that relate several operations of the vault.
use vstd::prelude::*;
use super::{
    format_version, ids_unique, password_bytes, sealed_body, sealed_key, unlock_outcome, SaveFileLayout,
    VaultCrypto, VaultState, VaultView,
};
use crate::entry::Entry;

verus! {

/// Round trip: take a vault whose resident data key is sealed under a
/// password (as `set_master_pw` leaves it, and as every entry operation
/// keeps it), and a save of it that sealed a payload under that key (as
/// `save` and `encrypt_vault` describe). Its save file carries this
/// engine's format version, so `load` accepts it, and unlocking the loaded
/// blob with the same password recovers exactly that data key and that
/// payload, which `unlock` hands to its decoder.
pub proof fn lemma_round_trip(
    set_up: VaultView,
    saved: VaultView,
    layout: SaveFileLayout,
    password: Seq<char>,
    payload: Seq<u8>,
)
    requires
        set_up.wf(),
        set_up.dek matches Some(d) && sealed_key(set_up.crypto, password_bytes(password)) == Some(
            d,
        ) && sealed_body(saved.crypto, d) == Some(payload),
        saved == (VaultView {
            crypto: VaultCrypto {
                vault_nonce: saved.crypto.vault_nonce,
                vault_ciphertext: saved.crypto.vault_ciphertext,
                ..set_up.crypto
            },
            ..set_up
        }),
        layout.version@ == saved.version,
        layout.crypto == saved.crypto,
    ensures
        layout.version@ == format_version(),
        unlock_outcome(layout.crypto, password_bytes(password)) == Some(
            (set_up.dek->Some_0, payload),
        ),
{
}

/// A failed unlock never mutates: when a password does not open a locked
/// vault, the vault `unlock` leaves behind (the same, by its contract) is
/// still locked, and what any other password recovers from it is what it
/// recovered before, so a correct password still succeeds.
pub proof fn lemma_failed_unlock_keeps_outcome(
    before: VaultView,
    after: VaultView,
    wrong: Seq<char>,
    right: Seq<char>,
)
    requires
        before.wf(),
        before.state == VaultState::Locked,
        unlock_outcome(before.crypto, password_bytes(wrong)) is None,
        after == before,
    ensures
        after.state == VaultState::Locked,
        after.dek is None,
        unlock_outcome(after.crypto, password_bytes(right)) == unlock_outcome(
            before.crypto,
            password_bytes(right),
        ),
{
}

/// Whether `decode` undoes `encode`: every payload that `encode` gives for
/// a list of entries, `decode` turns back into that very list.
pub open spec fn codec_inverts<E, D>(encode: E, decode: D) -> bool where
    E: Fn(&Vec<Entry>) -> Option<Vec<u8>>,
    D: Fn(&[u8]) -> Option<Vec<Entry>>,
 {
    forall|es: &Vec<Entry>, p: Vec<u8>, b: &[u8], out: Option<Vec<Entry>>|
        #![trigger encode.ensures((es,), Some(p)), decode.ensures((b,), out)]
        encode.ensures((es,), Some(p)) && b@ == p@ && decode.ensures((b,), out) ==> (out matches Some(
            v,
        ) && v@ == es@)
}

/// Entry round trip: take a vault set up with a password and saved with
/// `encode` (as `set_master_pw` and `save` describe), and a `decode` that
/// undoes `encode`. Its save file passes `load`'s version gate, and
/// unlocking the loaded blob with the same password recovers the data key,
/// and a payload that every run of `decode` turns into exactly the saved
/// entries, in order and with unique identifiers. By `unlock`'s contract
/// the unlock then succeeds and installs those entries.
pub proof fn lemma_entries_round_trip<E, D>(
    encode: E,
    decode: D,
    set_up: VaultView,
    saved: VaultView,
    layout: SaveFileLayout,
    password: Seq<char>,
) where E: Fn(&Vec<Entry>) -> Option<Vec<u8>>, D: Fn(&[u8]) -> Option<Vec<Entry>>
    requires
        codec_inverts(encode, decode),
        set_up.wf(),
        set_up.dek matches Some(d) && sealed_key(set_up.crypto, password_bytes(password)) == Some(
            d,
        ) && exists|es: &Vec<Entry>, p: Vec<u8>|
            es@ == set_up.entries && #[trigger] encode.ensures((es,), Some(p)) && sealed_body(
                saved.crypto,
                d,
            ) == Some(p@),
        saved == (VaultView {
            crypto: VaultCrypto {
                vault_nonce: saved.crypto.vault_nonce,
                vault_ciphertext: saved.crypto.vault_ciphertext,
                ..set_up.crypto
            },
            ..set_up
        }),
        layout.version@ == saved.version,
        layout.crypto == saved.crypto,
    ensures
        layout.version@ == format_version(),
        unlock_outcome(layout.crypto, password_bytes(password)) matches Some((k, payload)) && k
            == set_up.dek->Some_0 && forall|b: &[u8], out: Option<Vec<Entry>>|
            b@ == payload && #[trigger] decode.ensures((b,), out) ==> (out matches Some(v) && v@
                == set_up.entries && ids_unique(v@)),
{
    let d = set_up.dek->Some_0;
    let (es, p) = choose|es: &Vec<Entry>, p: Vec<u8>|
        es@ == set_up.entries && #[trigger] encode.ensures((es,), Some(p)) && sealed_body(
            saved.crypto,
            d,
        ) == Some(p@);
    lemma_round_trip(set_up, saved, layout, password, p@);
    assert forall|b: &[u8], out: Option<Vec<Entry>>|
        b@ == p@ && #[trigger] decode.ensures((b,), out) implies (out matches Some(v) && v@
            == set_up.entries && ids_unique(v@)) by {
        assert(encode.ensures((es,), Some(p)));
    }
}

} // verus!
