use base64::Engine;
use serde_json::Value;
use vault_engine::{
    Entry, EntryDraft, EntryId, EntryPublic, SaveFileLayout, Strength, Timestamp, UpdateEntry, Vault,
    VaultCrypto, VaultCryptoManager, VaultError, VaultErrorKind, VaultErrorSeverity, VaultState,
};

fn entry_to_json(e: &Entry) -> Value {
    let mut m = serde_json::Map::new();
    m.insert("id".to_string(), Value::String(uuid::Uuid::from_u128(e.id.value).to_string()));
    m.insert("createdAt".to_string(), Value::String(e.created_at.unix_nanos.to_string()));
    m.insert("modifiedAt".to_string(), Value::String(e.modified_at.unix_nanos.to_string()));
    m.insert(
        "lastUsed".to_string(),
        match e.last_used {
            Some(t) => Value::String(t.unix_nanos.to_string()),
            None => Value::Null,
        },
    );
    m.insert("uses".to_string(), Value::from(e.uses));
    m.insert("label".to_string(), Value::String(e.label.clone()));
    m.insert("url".to_string(), Value::String(e.url.clone()));
    m.insert("name".to_string(), Value::String(e.name.clone()));
    m.insert("password".to_string(), Value::String(e.password.clone()));
    m.insert("strength".to_string(), Value::from(strength_code(e.strength)));
    m.insert("favorite".to_string(), Value::Bool(e.favorite));
    Value::Object(m)
}

fn strength_code(s: Strength) -> u64 {
    match s {
        Strength::Unrated => 0,
        Strength::Weak => 1,
        Strength::Fair => 2,
        Strength::Strong => 3,
    }
}

fn strength_of(c: u64) -> Option<Strength> {
    match c {
        0 => Some(Strength::Unrated),
        1 => Some(Strength::Weak),
        2 => Some(Strength::Fair),
        3 => Some(Strength::Strong),
        _ => None,
    }
}

fn time_of(v: &Value) -> Option<Timestamp> {
    Some(Timestamp { unix_nanos: v.as_str()?.parse().ok()? })
}

fn entry_from_json(v: &Value) -> Option<Entry> {
    let last_used = match v.get("lastUsed")? {
        Value::Null => None,
        t => Some(time_of(t)?),
    };
    Some(Entry {
        id: EntryId { value: uuid::Uuid::parse_str(v.get("id")?.as_str()?).ok()?.as_u128() },
        created_at: time_of(v.get("createdAt")?)?,
        modified_at: time_of(v.get("modifiedAt")?)?,
        last_used,
        uses: v.get("uses")?.as_u64()?,
        label: v.get("label")?.as_str()?.to_string(),
        url: v.get("url")?.as_str()?.to_string(),
        name: v.get("name")?.as_str()?.to_string(),
        password: v.get("password")?.as_str()?.to_string(),
        strength: strength_of(v.get("strength")?.as_u64()?)?,
        favorite: v.get("favorite")?.as_bool()?,
    })
}

fn encode(entries: &Vec<Entry>) -> Option<Vec<u8>> {
    serde_json::to_vec(&Value::Array(entries.iter().map(entry_to_json).collect())).ok()
}

fn decode(bytes: &[u8]) -> Option<Vec<Entry>> {
    let v: Value = serde_json::from_slice(bytes).ok()?;
    v.as_array()?.iter().map(entry_from_json).collect()
}

fn draft(label: &str, name: &str, password: &str, url: &str) -> EntryDraft {
    EntryDraft {
        label: label.to_string(),
        url: url.to_string(),
        name: name.to_string(),
        password: password.to_string(),
        strength: None,
        favorite: None,
    }
}

fn copy_crypto(c: &VaultCrypto) -> VaultCrypto {
    c.duplicate()
}

fn copy_layout(l: &SaveFileLayout) -> SaveFileLayout {
    SaveFileLayout { version: l.version.clone(), crypto: copy_crypto(&l.crypto) }
}

fn set_up(password: &str) -> Vault {
    let mut v = Vault::new();
    v.load(None).unwrap();
    v.set_master_pw(password).unwrap();
    v
}

fn reopen(layout: SaveFileLayout) -> Vault {
    let mut v = Vault::new();
    v.load(Some(Ok(layout))).unwrap();
    v
}

fn state_of(v: &mut Vault) -> VaultState {
    v.get_status().state
}

#[test]
fn round_trip_reproduces_entries() {
    let mut v = set_up("correct horse");
    let a = v.new_entry(&draft("GitHub", "dev", "hunter2", "https://github.com")).unwrap();
    let b = v
        .new_entry(&EntryDraft {
            label: "Mail \"work\"".to_string(),
            url: "".to_string(),
            name: "me@example.org".to_string(),
            password: "p\\ss\nword".to_string(),
            strength: Some(Strength::Strong),
            favorite: Some(true),
        })
        .unwrap();
    v.get_entry_password(&a.id).unwrap();
    let before = v.get_entries().unwrap();
    let layout = v.save(encode).unwrap();

    let mut w = reopen(layout);
    assert_eq!(state_of(&mut w), VaultState::Locked);
    w.unlock("correct horse", decode).unwrap();
    let after = w.get_entries().unwrap();
    assert_eq!(before.len(), 2);
    assert_eq!(after.len(), 2);
    for (x, y) in before.iter().zip(after.iter()) {
        assert_eq!(x.id, y.id);
        assert_eq!(x.created_at, y.created_at);
        assert_eq!(x.modified_at, y.modified_at);
        assert_eq!(x.last_used, y.last_used);
        assert_eq!(x.uses, y.uses);
        assert_eq!(x.label, y.label);
        assert_eq!(x.url, y.url);
        assert_eq!(x.name, y.name);
        assert_eq!(x.strength, y.strength);
        assert_eq!(x.favorite, y.favorite);
    }
    assert_eq!(w.get_entry_password(&b.id).unwrap(), "p\\ss\nword");
    assert_eq!(w.get_entry_password(&a.id).unwrap(), "hunter2");
}

#[test]
fn wrong_password_leaves_vault_locked() {
    let mut v = set_up("right");
    v.new_entry(&draft("a", "b", "c", "d")).unwrap();
    let layout = v.save(encode).unwrap();
    let mut w = reopen(copy_layout(&layout));
    let err = w.unlock("wrong", decode).unwrap_err();
    assert_eq!(err.kind, VaultErrorKind::Auth);
    assert_eq!(err.severity, VaultErrorSeverity::Soft);
    assert_eq!(state_of(&mut w), VaultState::Locked);
    assert!(w.get_entries().is_err());
    w.unlock("right", decode).unwrap();
    assert_eq!(state_of(&mut w), VaultState::Unlocked);
    assert_eq!(w.get_entries().unwrap().len(), 1);
}

#[test]
fn consecutive_saves_use_fresh_nonces() {
    let mut v = set_up("pw");
    v.new_entry(&draft("a", "b", "c", "d")).unwrap();
    let first = v.save(encode).unwrap();
    let second = v.save(encode).unwrap();
    assert_ne!(first.crypto.vault_nonce, second.crypto.vault_nonce);
    assert_ne!(first.crypto.vault_ciphertext, second.crypto.vault_ciphertext);
    assert_eq!(first.crypto.salt, second.crypto.salt);
    assert_eq!(first.crypto.wrapped_dek, second.crypto.wrapped_dek);
    assert_eq!(first.crypto.dek_nonce, second.crypto.dek_nonce);
}

#[test]
fn public_projection_drops_only_password() {
    let e = Entry {
        id: EntryId { value: 7 },
        created_at: Timestamp { unix_nanos: 1 },
        modified_at: Timestamp { unix_nanos: 2 },
        last_used: Some(Timestamp { unix_nanos: 3 }),
        uses: 4,
        label: "label".to_string(),
        url: "url".to_string(),
        name: "name".to_string(),
        password: "secret".to_string(),
        strength: Strength::Fair,
        favorite: true,
    };
    let p = EntryPublic::from(&e);
    assert_eq!(p.id, EntryId { value: 7 });
    assert_eq!(p.created_at, Timestamp { unix_nanos: 1 });
    assert_eq!(p.modified_at, Timestamp { unix_nanos: 2 });
    assert_eq!(p.last_used, Some(Timestamp { unix_nanos: 3 }));
    assert_eq!(p.uses, 4);
    assert_eq!(p.label, "label");
    assert_eq!(p.url, "url");
    assert_eq!(p.name, "name");
    assert_eq!(p.strength, Strength::Fair);
    assert!(p.favorite);
    assert!(!format!("{:?}", p).contains("secret"));
}

#[test]
fn missing_id_is_not_found() {
    let mut v = set_up("pw");
    v.new_entry(&draft("a", "b", "c", "d")).unwrap();
    let missing = EntryId { value: 12345 };
    let patch = UpdateEntry { label: Some("x".to_string()), url: None, name: None, password: None, strength: None };
    let errs = vec![
        v.update_entry(&missing, &patch).unwrap_err(),
        v.toggle_favorite(&missing).unwrap_err(),
        v.delete_entry(&missing).unwrap_err(),
        v.get_entry_password(&missing).unwrap_err(),
        v.get_entry_name(&missing).unwrap_err(),
    ];
    for e in errs {
        assert_eq!(e.kind, VaultErrorKind::NotFound);
        assert_eq!(e.severity, VaultErrorSeverity::Soft);
    }
    assert_eq!(v.get_entries().unwrap().len(), 1);
}

#[test]
fn version_mismatch_is_fatal() {
    let mut v = set_up("pw");
    v.new_entry(&draft("a", "b", "c", "d")).unwrap();
    let mut layout = v.save(encode).unwrap();
    layout.version = "0.5.9".to_string();
    let mut w = Vault::new();
    let err = w.load(Some(Ok(layout))).unwrap_err();
    assert_eq!(err.kind, VaultErrorKind::Version);
    assert_eq!(err.severity, VaultErrorSeverity::Fatal);
    let status = w.get_status();
    assert_eq!(status.state, VaultState::Uninitialized);
    assert!(!status.ready);
    assert_eq!(status.last_error.unwrap().kind, VaultErrorKind::Version);
    assert!(w.get_status().last_error.is_none());
    assert!(w.get_entries().is_err());
}

#[test]
fn github_entry_survives_reload() {
    let mut v = Vault::new();
    v.load(None).unwrap();
    v.set_master_pw("Tr0ub4dor").unwrap();
    v.new_entry(&draft("GitHub", "dev", "hunter2", "https://github.com")).unwrap();
    let layout = v.save(encode).unwrap();
    v.lock();

    let mut w = reopen(layout);
    w.unlock("Tr0ub4dor", decode).unwrap();
    let list = w.get_entries().unwrap();
    assert_eq!(list.len(), 1);
    assert_eq!(list[0].label, "GitHub");
    assert_eq!(list[0].uses, 0);
    assert!(list[0].last_used.is_none());
    let id = list[0].id;
    assert_eq!(w.get_entry_password(&id).unwrap(), "hunter2");
    let list = w.get_entries().unwrap();
    assert_eq!(list[0].uses, 1);
    assert!(list[0].last_used.is_some());
}

#[test]
fn wrong_then_right_password() {
    let mut v = set_up("Tr0ub4dor");
    v.new_entry(&draft("GitHub", "dev", "hunter2", "https://github.com")).unwrap();
    let layout = v.save(encode).unwrap();
    let mut w = reopen(layout);
    let err = w.unlock("wrongpw", decode).unwrap_err();
    assert_eq!(err.kind, VaultErrorKind::Auth);
    w.unlock("Tr0ub4dor", decode).unwrap();
    assert_eq!(w.get_entries().unwrap()[0].label, "GitHub");
}

#[test]
fn setup_only_from_uninitialized() {
    let mut v = set_up("pw");
    let err = v.set_master_pw("other").unwrap_err();
    assert_eq!(err.kind, VaultErrorKind::Access);
    assert_eq!(err.severity, VaultErrorSeverity::Blocking);
    let layout = v.save(encode).unwrap();
    let mut w = reopen(layout);
    assert_eq!(w.set_master_pw("other").unwrap_err().kind, VaultErrorKind::Access);
    w.unlock("pw", decode).unwrap();
    assert_eq!(w.get_entries().unwrap().len(), 0);
}

#[test]
fn entry_operations_need_unlocked_vault() {
    let mut v = Vault::new();
    v.load(None).unwrap();
    let id = EntryId { value: 1 };
    assert_eq!(v.save(encode).unwrap_err().kind, VaultErrorKind::Access);
    assert_eq!(v.new_entry(&draft("a", "b", "c", "d")).unwrap_err().kind, VaultErrorKind::Access);
    assert_eq!(v.get_entries().unwrap_err().kind, VaultErrorKind::Access);
    assert_eq!(v.get_entry_password(&id).unwrap_err().kind, VaultErrorKind::Access);
    assert_eq!(v.toggle_favorite(&id).unwrap_err().kind, VaultErrorKind::Access);
    assert_eq!(v.delete_entry(&id).unwrap_err().kind, VaultErrorKind::Access);
    assert_eq!(v.unlock("pw", decode).unwrap_err().kind, VaultErrorKind::Access);
    assert_eq!(v.encrypt_vault(b"x").unwrap_err().kind, VaultErrorKind::Access);
}

#[test]
fn unlock_of_unlocked_vault_is_refused() {
    let mut v = set_up("pw");
    let err = v.unlock("pw", decode).unwrap_err();
    assert_eq!(err.kind, VaultErrorKind::Access);
    assert_eq!(state_of(&mut v), VaultState::Unlocked);
}

#[test]
fn lock_discards_entries_and_key() {
    let mut v = set_up("pw");
    v.new_entry(&draft("a", "b", "c", "d")).unwrap();
    v.save(encode).unwrap();
    v.lock();
    assert_eq!(state_of(&mut v), VaultState::Locked);
    assert_eq!(v.get_entries().unwrap_err().kind, VaultErrorKind::Access);
    assert_eq!(v.encrypt_vault(b"x").unwrap_err().kind, VaultErrorKind::Access);
    v.unlock("pw", decode).unwrap();
    assert_eq!(v.get_entries().unwrap().len(), 1);
}

#[test]
fn load_without_file_stays_uninitialized() {
    let mut v = Vault::new_with_path("/tmp/vault.json".to_string());
    assert_eq!(v.get_path(), "/tmp/vault.json");
    assert!(!v.get_status().ready);
    v.load(None).unwrap();
    let s = v.get_status();
    assert_eq!(s.state, VaultState::Uninitialized);
    assert!(s.ready);
    assert!(s.last_error.is_none());
    v.set_path("/elsewhere".to_string());
    assert_eq!(v.get_path(), "/elsewhere");
}

#[test]
fn read_failure_is_reported_once() {
    let mut v = Vault::new();
    let err = v.load(Some(Err(VaultError::read_failed("disk".to_string())))).unwrap_err();
    assert_eq!(err.kind, VaultErrorKind::Io);
    assert_eq!(err.severity, VaultErrorSeverity::Fatal);
    let first = v.get_status();
    assert_eq!(first.state, VaultState::Uninitialized);
    assert_eq!(first.last_error.unwrap().message, "disk");
    assert!(v.get_status().last_error.is_none());
    let err = v.load(Some(Err(VaultError::parse_failed("bad json".to_string())))).unwrap_err();
    assert_eq!(err.kind, VaultErrorKind::Parse);
    assert_eq!(v.get_status().last_error.unwrap().kind, VaultErrorKind::Parse);
}

#[test]
fn corrupted_body_reads_as_auth_failure() {
    let mut v = set_up("pw");
    v.new_entry(&draft("a", "b", "c", "d")).unwrap();
    let layout = v.save(encode).unwrap();
    let mut bad = copy_layout(&layout);
    bad.crypto.vault_ciphertext = copy_layout(&layout).crypto.wrapped_dek;
    let mut w = reopen(bad);
    let e1 = w.unlock("pw", decode).unwrap_err();
    let mut bad_salt = copy_layout(&layout);
    bad_salt.crypto.salt = "not base64!".to_string();
    let mut x = reopen(bad_salt);
    let e2 = x.unlock("pw", decode).unwrap_err();
    let mut y = reopen(copy_layout(&layout));
    let e3 = y.unlock("nope", decode).unwrap_err();
    for e in [&e1, &e2, &e3] {
        assert_eq!(e.kind, VaultErrorKind::Auth);
        assert_eq!(e.severity, VaultErrorSeverity::Soft);
    }
    for e in [&e1, &e2, &e3] {
        assert_eq!(e.message, "Password incorrect");
        assert_eq!(e.code, "E_VAULT_AUTH");
    }
    assert_eq!(state_of(&mut w), VaultState::Locked);
}

#[test]
fn never_saved_body_does_not_open() {
    let mut v = set_up("pw");
    v.lock();
    assert_eq!(v.unlock("pw", decode).unwrap_err().kind, VaultErrorKind::Auth);
}

#[test]
fn refused_payload_is_a_parse_error() {
    let mut v = set_up("pw");
    let id = v.new_entry(&draft("a", "b", "c", "d")).unwrap().id;
    let layout = v.save(encode).unwrap();
    let mut w = reopen(copy_layout(&layout));
    let err = w.unlock("pw", |_b: &[u8]| None).unwrap_err();
    assert_eq!(err.kind, VaultErrorKind::Parse);
    assert_eq!(state_of(&mut w), VaultState::Locked);
    let doubled = |b: &[u8]| {
        let mut es = decode(b)?;
        let again = es[0].duplicate();
        es.push(again);
        Some(es)
    };
    assert_eq!(w.unlock("pw", doubled).unwrap_err().kind, VaultErrorKind::Parse);
    w.unlock("pw", decode).unwrap();
    assert_eq!(w.get_entries().unwrap()[0].id, id);
}

#[test]
fn refused_encoding_leaves_blob_unchanged() {
    let mut v = set_up("pw");
    let first = v.save(encode).unwrap();
    let err = v.save(|_es: &Vec<Entry>| None).unwrap_err();
    assert_eq!(err.kind, VaultErrorKind::Internal);
    assert_eq!(err.severity, VaultErrorSeverity::Blocking);
    let again = v.save(encode).unwrap();
    assert_ne!(first.crypto.vault_nonce, again.crypto.vault_nonce);
}

#[test]
fn save_file_fields_are_base64() {
    let mut v = set_up("pw");
    let layout = v.save(encode).unwrap();
    assert_eq!(layout.version, "0.6.0");
    let e = base64::engine::general_purpose::STANDARD;
    assert_eq!(e.decode(&layout.crypto.salt).unwrap().len(), 32);
    assert_eq!(e.decode(&layout.crypto.dek_nonce).unwrap().len(), 24);
    assert_eq!(e.decode(&layout.crypto.wrapped_dek).unwrap().len(), 48);
    assert_eq!(e.decode(&layout.crypto.vault_nonce).unwrap().len(), 24);
    let body = e.decode(&layout.crypto.vault_ciphertext).unwrap();
    assert_eq!(body.len(), 2 + 16);
    assert_ne!(&body[..2], b"[]");
}

#[test]
fn create_assigns_defaults_and_unique_ids() {
    let mut v = set_up("pw");
    let a = v.new_entry(&draft("a", "b", "c", "d")).unwrap();
    let b = v.new_entry(&draft("a", "b", "c", "d")).unwrap();
    assert_ne!(a.id, b.id);
    assert_eq!(a.strength, Strength::Unrated);
    assert!(!a.favorite);
    assert_eq!(a.uses, 0);
    assert!(a.last_used.is_none());
    assert_eq!(a.created_at, a.modified_at);
    let list = v.get_entries().unwrap();
    assert_eq!(list[0].id, a.id);
    assert_eq!(list[1].id, b.id);
}

#[test]
fn insert_with_given_id_and_time() {
    let mut v = set_up("pw");
    let t = Timestamp { unix_nanos: 1_700_000_000_000_000_000 };
    let p = v.insert_entry(&draft("x", "y", "z", "w"), EntryId { value: 42 }, t).unwrap();
    assert_eq!(p.id, EntryId { value: 42 });
    assert_eq!(p.created_at, t);
    assert_eq!(p.modified_at, t);
    let err = v.insert_entry(&draft("x", "y", "z", "w"), EntryId { value: 42 }, t).unwrap_err();
    assert_eq!(err.kind, VaultErrorKind::Internal);
    assert_eq!(v.get_entries().unwrap().len(), 1);
}

#[test]
fn update_applies_only_present_fields() {
    let mut v = set_up("pw");
    let t0 = Timestamp { unix_nanos: 10 };
    let t1 = Timestamp { unix_nanos: 20 };
    let id = EntryId { value: 9 };
    v.insert_entry(&draft("label", "name", "pass", "url"), id, t0).unwrap();
    let patch = UpdateEntry {
        label: Some("new label".to_string()),
        url: None,
        name: None,
        password: Some("new pass".to_string()),
        strength: Some(Strength::Weak),
    };
    let p = v.update_entry_at(&id, &patch, t1).unwrap();
    assert_eq!(p.label, "new label");
    assert_eq!(p.url, "url");
    assert_eq!(p.name, "name");
    assert_eq!(p.strength, Strength::Weak);
    assert_eq!(p.created_at, t0);
    assert_eq!(p.modified_at, t1);
    assert_eq!(v.reveal_password_at(&id, t1).unwrap(), "new pass");
    let q = v.update_entry(&id, &UpdateEntry { label: None, url: None, name: None, password: None, strength: None }).unwrap();
    assert_eq!(q.label, "new label");
    assert!(q.modified_at.unix_nanos > t1.unix_nanos);
}

#[test]
fn reveal_counts_uses() {
    let mut v = set_up("pw");
    let id = EntryId { value: 3 };
    v.insert_entry(&draft("l", "user", "pw1", "u"), id, Timestamp { unix_nanos: 0 }).unwrap();
    assert_eq!(v.reveal_name_at(&id, Timestamp { unix_nanos: 5 }).unwrap(), "user");
    assert_eq!(v.reveal_password_at(&id, Timestamp { unix_nanos: 6 }).unwrap(), "pw1");
    let e = &v.get_entries().unwrap()[0];
    assert_eq!(e.uses, 2);
    assert_eq!(e.last_used, Some(Timestamp { unix_nanos: 6 }));
    assert_eq!(v.get_entry_name(&id).unwrap(), "user");
    assert_eq!(v.get_entries().unwrap()[0].uses, 3);
}

#[test]
fn use_counter_stops_at_maximum() {
    let mut v = set_up("pw");
    let id = EntryId { value: 5 };
    v.insert_entry(&draft("l", "n", "p", "u"), id, Timestamp { unix_nanos: 0 }).unwrap();
    let layout = v.save(|es: &Vec<Entry>| {
        let mut copy: Vec<Entry> = es.iter().map(|e| e.duplicate()).collect();
        copy[0].uses = u64::MAX;
        encode(&copy)
    });
    let mut w = reopen(layout.unwrap());
    w.unlock("pw", decode).unwrap();
    assert_eq!(w.get_entries().unwrap()[0].uses, u64::MAX);
    w.get_entry_password(&id).unwrap();
    assert_eq!(w.get_entries().unwrap()[0].uses, u64::MAX);
}

#[test]
fn toggle_and_delete_by_id() {
    let mut v = set_up("pw");
    let t = Timestamp { unix_nanos: 0 };
    for k in 1..=3u128 {
        v.insert_entry(&draft("l", "n", "p", "u"), EntryId { value: k }, t).unwrap();
    }
    assert!(v.toggle_favorite(&EntryId { value: 2 }).unwrap().favorite);
    assert!(!v.toggle_favorite(&EntryId { value: 2 }).unwrap().favorite);
    v.delete_entry(&EntryId { value: 2 }).unwrap();
    let ids: Vec<u128> = v.get_entries().unwrap().iter().map(|e| e.id.value).collect();
    assert_eq!(ids, vec![1, 3]);
    assert_eq!(v.delete_entry(&EntryId { value: 2 }).unwrap_err().kind, VaultErrorKind::NotFound);
}

#[test]
fn key_derivation_is_deterministic() {
    let salt = [7u8; 32];
    let a = VaultCryptoManager::derive_kek(b"password", &salt).unwrap();
    let b = VaultCryptoManager::derive_kek(b"password", &salt).unwrap();
    let c = VaultCryptoManager::derive_kek(b"passwore", &salt).unwrap();
    assert_eq!(a, b);
    assert_ne!(a, c);
    assert_ne!(a, [0u8; 32]);
    let err = VaultCryptoManager::derive_kek(b"password", &[1u8; 4]).unwrap_err();
    assert_eq!(err.kind, VaultErrorKind::Crypto);
}

#[test]
fn wrapped_key_opens_only_under_its_key() {
    let dek = [9u8; 32];
    let kek = [1u8; 32];
    let (wrapped, nonce) = VaultCryptoManager::wrap_dek(&dek, &kek).unwrap();
    assert_ne!(&wrapped[..32], &dek[..]);
    assert_eq!(wrapped.len(), 48);
    assert_eq!(VaultCryptoManager::unwrap_dek(&wrapped, &kek, &nonce).unwrap(), dek);
    let (_, other_nonce) = VaultCryptoManager::wrap_dek(&dek, &kek).unwrap();
    assert_ne!(nonce, other_nonce);
    let wrong = VaultCryptoManager::unwrap_dek(&wrapped, &[2u8; 32], &nonce).unwrap_err();
    assert_eq!(wrong.kind, VaultErrorKind::Crypto);
    let mut tampered = wrapped.clone();
    tampered[0] ^= 1;
    assert!(VaultCryptoManager::unwrap_dek(&tampered, &kek, &nonce).is_err());
}

#[test]
fn error_constructors_and_copies() {
    let e = VaultError::new(VaultErrorKind::Validation, VaultErrorSeverity::Soft, "m", "C");
    let d = e.duplicate();
    assert_eq!(d.kind, VaultErrorKind::Validation);
    assert_eq!(d.severity, VaultErrorSeverity::Soft);
    assert_eq!(d.message, "m");
    assert_eq!(d.code, "C");
    let w = VaultError::write_failed("full".to_string());
    assert_eq!(w.kind, VaultErrorKind::Io);
    assert_eq!(w.severity, VaultErrorSeverity::Blocking);
}

#[test]
fn first_encryption_after_setup_succeeds() {
    let mut v = set_up("pw");
    v.encrypt_vault(b"payload").unwrap();
    let layout = v.save(encode).unwrap();
    let body = base64::engine::general_purpose::STANDARD.decode(&layout.crypto.vault_ciphertext).unwrap();
    assert_eq!(body.len(), 2 + 16);
}
