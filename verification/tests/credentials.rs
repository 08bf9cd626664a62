use russh::keys::ssh_key::private::Ed25519Keypair;
use russh::keys::ssh_key::LineEnding;
use russh::keys::{HashAlg, PrivateKey};
use sheil::credentials::{
    check_key_update, check_new_credential, check_update_name, credential_row_from_columns,
    decrypt_row_value, open_passphrase, parse_kind, row_to_info, seal_credential_update,
    seal_new_credential, update_needs_key_check, with_key_info, CredentialColumns,
    CredentialInput, CredentialKind, CredentialRow, CredentialUpdate, StoredCredential,
};
use sheil::crypto::open_text;
use sheil::settings::{row_to_entry, seeds};

/// An Ed25519 key in OpenSSH form, made here from a fixed seed, with its
/// SHA-256 fingerprint; `passphrase` encrypts it.
fn test_key(passphrase: Option<&str>) -> (String, String) {
    let key = PrivateKey::from(Ed25519Keypair::from_seed(&[7u8; 32]));
    let fingerprint = key.fingerprint(HashAlg::Sha256).to_string();
    let key = match passphrase {
        Some(p) => key.encrypt(&mut rand::rng(), p).unwrap(),
        None => key,
    };
    (key.to_openssh(LineEnding::LF).unwrap().to_string(), fingerprint)
}

fn mk() -> [u8; 32] {
    [5u8; 32]
}

#[test]
fn kinds_roundtrip_through_text() {
    assert_eq!(CredentialKind::Key.as_str(), "key");
    assert_eq!(CredentialKind::Password.as_str(), "password");
    assert_eq!(parse_kind("key"), CredentialKind::Key);
    assert_eq!(parse_kind("password"), CredentialKind::Password);
    assert_eq!(parse_kind("other"), CredentialKind::Password);
}

fn input(kind: CredentialKind, name: &str, value: &str) -> CredentialInput {
    CredentialInput {
        name: name.into(),
        kind,
        value: value.into(),
        key_passphrase_value: None,
        group: None,
        tags: vec!["t".into()],
    }
}

#[test]
fn new_credentials_are_checked() {
    assert_eq!(
        check_new_credential(&input(CredentialKind::Password, " ", "x")),
        Err("name must not be empty".to_string())
    );
    assert_eq!(
        check_new_credential(&input(CredentialKind::Password, "db", "")),
        Err("password must not be empty".to_string())
    );
    assert_eq!(check_new_credential(&input(CredentialKind::Password, "db", "pw")), Ok(None));
    let err = check_new_credential(&input(CredentialKind::Key, "k", "not a key")).unwrap_err();
    assert!(err.starts_with("Key error: "));
    let info = check_new_credential(&input(CredentialKind::Key, "k", &test_key(None).0)).unwrap().unwrap();
    assert_eq!(info.0, "ssh-ed25519");
    assert!(info.1.starts_with("SHA256:"));
}

#[test]
fn sealed_values_open_to_what_was_sealed() {
    let key = mk();
    let sealed = seal_new_credential(&key, "hunter2", Some(""), &vec!["a".to_string()]);
    assert_eq!(open_text(&key, &sealed.encrypted_value, &sealed.nonce), Ok("hunter2".to_string()));
    assert!(sealed.passphrase_encrypted_value.is_none());
    assert_eq!(sealed.tags_json, "[\"a\"]");
    let sealed = seal_new_credential(&key, "k", Some("pp"), &vec![]);
    let pass = open_passphrase(&key, &sealed.passphrase_encrypted_value, &sealed.passphrase_nonce);
    assert_eq!(pass, Ok(Some("pp".to_string())));
    assert_eq!(open_passphrase(&key, &None, &sealed.passphrase_nonce), Ok(None));
}

fn stored(key: &[u8; 32]) -> StoredCredential {
    let s = seal_new_credential(key, "old", Some("oldpass"), &vec![]);
    StoredCredential {
        name: "n".into(),
        encrypted_value: s.encrypted_value,
        nonce: s.nonce,
        passphrase_encrypted_value: s.passphrase_encrypted_value,
        passphrase_nonce: s.passphrase_nonce,
        group: Some("g".into()),
        tags_json: None,
    }
}

#[test]
fn update_passphrase_rules() {
    let key = mk();
    // Keeping the value keeps the passphrase.
    let u = seal_credential_update(&key, &stored(&key), None, None, None, None, None);
    let p = open_passphrase(&key, &u.passphrase_encrypted_value, &u.passphrase_nonce);
    assert_eq!(p, Ok(Some("oldpass".to_string())));
    assert_eq!(u.name, "n");
    assert_eq!(u.group.as_deref(), Some("g"));
    // Replacing the value without a passphrase drops the old one.
    let u = seal_credential_update(&key, &stored(&key), Some("m"), Some("new"), None, Some(None), None);
    assert!(u.passphrase_encrypted_value.is_none() && u.passphrase_nonce.is_none());
    assert_eq!(open_text(&key, &u.encrypted_value, &u.nonce), Ok("new".to_string()));
    assert_eq!(u.group, None);
    assert_eq!(u.name, "m");
    // An empty passphrase clears it.
    let u = seal_credential_update(&key, &stored(&key), None, None, Some(""), None, Some(vec![]));
    assert!(u.passphrase_encrypted_value.is_none());
    assert_eq!(u.tags_json, "[]");
}

fn no_update() -> CredentialUpdate {
    CredentialUpdate { name: None, value: None, key_passphrase_value: None, group: None, tags: None }
}

#[test]
fn update_checks() {
    let mut u = no_update();
    assert!(check_update_name(&u).is_ok());
    assert!(!update_needs_key_check(CredentialKind::Key, &u));
    u.name = Some("  ".into());
    assert_eq!(check_update_name(&u), Err("name must not be empty".to_string()));
    u.key_passphrase_value = Some(String::new());
    assert!(update_needs_key_check(CredentialKind::Key, &u));
    assert!(!update_needs_key_check(CredentialKind::Password, &u));
    let info = check_key_update(&u, test_key(None).0, Some("stale".into())).unwrap();
    assert_eq!(info.0, "ssh-ed25519");
    let mut u = no_update();
    u.value = Some("junk".into());
    assert!(check_key_update(&u, test_key(None).0, None).is_err());
}

#[test]
fn stored_rows_decode_and_list() {
    let key = mk();
    let (text, fingerprint) = test_key(None);
    let sealed = seal_new_credential(&key, &text, None, &vec![]);
    let row = credential_row_from_columns(&CredentialColumns {
        id: Some("c1".into()),
        name: Some("laptop".into()),
        kind: Some("key".into()),
        encrypted_value: Some(sealed.encrypted_value),
        nonce: Some(sealed.nonce),
        group: None,
        tags: Some("[\"x\"]".into()),
        created_at: None,
        updated_at: None,
    });
    assert_eq!(row.kind, CredentialKind::Key);
    assert_eq!(row.tags, vec!["x".to_string()]);
    assert_eq!(decrypt_row_value(&row, &key), Ok(text.clone()));
    let info = row_to_info(&row, &key);
    assert_eq!(info.key_type.as_deref(), Some("ssh-ed25519"));
    assert_eq!(info.key_fingerprint, Some(fingerprint));
    let wrong = row_to_info(&row, &[0u8; 32]);
    assert_eq!(wrong.key_type, None);
    let password_row = CredentialRow {
        id: "p".into(),
        name: "pw".into(),
        kind: CredentialKind::Password,
        encrypted_value: vec![],
        nonce: vec![],
        group: None,
        tags: vec![],
        created_at: String::new(),
        updated_at: String::new(),
    };
    let info = row_to_info(&password_row, &key);
    assert_eq!((info.key_type, info.key_fingerprint), (None, None));
    let with = with_key_info(row_to_info(&password_row, &key), Some(("t".into(), "f".into())));
    assert_eq!(with.key_fingerprint.as_deref(), Some("f"));
}

#[test]
fn settings_seeds_and_rows() {
    let s = seeds();
    assert_eq!(s.len(), 23);
    assert_eq!(s[2], ("terminal.appearance.font_size", "14", "number"));
    assert_eq!(s[22], ("ssh.connect_timeout", "", "null"));
    for (_, value, ty) in &s {
        assert!(["string", "number", "boolean", "null", "json"].contains(ty));
        if *ty == "null" {
            assert!(value.is_empty());
        }
    }
    let mut keys: Vec<&str> = s.iter().map(|(k, _, _)| *k).collect();
    keys.sort();
    keys.dedup();
    assert_eq!(keys.len(), 23);
    let e = row_to_entry((
        "k".into(),
        "v".into(),
        "d".into(),
        "string".into(),
        "c".into(),
        "u".into(),
    ));
    assert_eq!((e.key.as_str(), e.default_value.as_str(), e.updated_at.as_str()), ("k", "d", "u"));
}
