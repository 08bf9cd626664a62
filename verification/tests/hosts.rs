use sheil::hosts::{
    default_auth_method, default_port, duplicate_check_outcome, default_protocol, host_from_columns,
    host_record_for_insert, import_input, key_lookup_for, merge_host_update, HostColumns,
    HostError, HostInput, HostUpdate, ImportOutcome, ImportResult, ImportedHost, KeyLookup,
};

fn sample_input() -> HostInput {
    HostInput {
        name: "test-host".into(),
        host: "10.0.0.1".into(),
        port: 22,
        username: "admin".into(),
        protocol: "ssh".into(),
        group: Some("Production".into()),
        auth_method: "key".into(),
        key_id: Some("credential-key-id".into()),
        password_id: None,
        tags: vec!["web".into(), "nginx".into()],
    }
}

fn validation_message(r: Result<(), HostError>) -> String {
    match r {
        Err(e) => e.message(),
        Ok(()) => panic!("expected a validation error"),
    }
}

#[test]
fn hosts_validation_rejects_empty_name() {
    let mut input = sample_input();
    input.name = String::new();
    assert!(input.validate().is_err());
}

#[test]
fn validation_rejects_empty_host() {
    let mut input = sample_input();
    input.host = "  ".into();
    assert!(input.validate().is_err());
}

#[test]
fn validation_rejects_key_auth_without_key_id() {
    let mut input = sample_input();
    input.auth_method = "key".into();
    input.key_id = None;
    assert!(input.validate().is_err());
}

#[test]
fn validation_rejects_unsupported_protocol() {
    let mut input = sample_input();
    input.protocol = "telnet".into();
    assert!(input.validate().is_err());
}

#[test]
fn validation_accepts_none_auth_method() {
    let mut input = sample_input();
    input.auth_method = "none".into();
    input.key_id = None;
    input.password_id = None;
    assert!(input.validate().is_ok());
}

#[test]
fn hosts_validation_accepts_valid_input() {
    assert!(sample_input().validate().is_ok());
}

#[test]
fn validation_messages_name_the_rule() {
    let mut input = sample_input();
    input.protocol = "telnet".into();
    assert_eq!(
        validation_message(input.validate()),
        "validation error: unsupported protocol: telnet (only ssh is supported in Phase 1)"
    );
    let mut input = sample_input();
    input.auth_method = "agent".into();
    assert_eq!(
        validation_message(input.validate()),
        "validation error: invalid auth method: agent (expected 'none', 'password' or 'key')"
    );
    let mut input = sample_input();
    input.key_id = Some(String::new());
    assert_eq!(
        validation_message(input.validate()),
        "validation error: key_id is required when auth_method is 'key'"
    );
    let mut input = sample_input();
    input.username = "\t".into();
    assert_eq!(validation_message(input.validate()), "validation error: username must not be empty");
    assert_eq!(HostError::NotFound("h1".into()).message(), "host not found: h1");
    assert_eq!(HostError::Database("locked".into()).message(), "database error: locked");
}

#[test]
fn defaults() {
    assert_eq!(default_port(), 22);
    assert_eq!(default_protocol(), "ssh");
    assert_eq!(default_auth_method(), "password");
}

#[test]
fn insert_record_stores_tags_as_json() {
    let rec = host_record_for_insert(&sample_input()).ok().unwrap();
    assert_eq!(rec.name, "test-host");
    assert_eq!(rec.tags_json, "[\"web\",\"nginx\"]");
    let mut bad = sample_input();
    bad.name = " ".into();
    assert!(host_record_for_insert(&bad).is_err());
}

fn stored() -> HostColumns {
    HostColumns {
        id: Some("h1".into()),
        name: Some("db".into()),
        host: Some("10.0.0.2".into()),
        port: Some(2222),
        username: Some("root".into()),
        protocol: None,
        group: Some("Ops".into()),
        auth_method: Some("key".into()),
        key_id: Some("k1".into()),
        password_id: None,
        tags: Some("[\"a\"]".into()),
        created_at: Some("c".into()),
        updated_at: None,
    }
}

fn no_change() -> HostUpdate {
    HostUpdate {
        name: None,
        host: None,
        port: None,
        username: None,
        protocol: None,
        group: None,
        auth_method: None,
        key_id: None,
        password_id: None,
        tags: None,
    }
}

#[test]
fn stored_row_decodes_with_defaults() {
    let mut c = stored();
    c.port = Some(70000);
    c.tags = Some("not json".into());
    let h = host_from_columns(&c);
    assert_eq!(h.port, 22);
    assert_eq!(h.protocol, "ssh");
    assert!(h.tags.is_empty());
    assert!(!h.has_password);
    assert_eq!(h.updated_at, "");
    let h = host_from_columns(&stored());
    assert_eq!(h.port, 2222);
    assert_eq!(h.tags, vec!["a".to_string()]);
}

#[test]
fn hosts_update_keeps_and_clears_fields() {
    let rec = merge_host_update(&stored(), no_change()).ok().unwrap();
    assert_eq!((rec.name.as_str(), rec.port, rec.protocol.as_str()), ("db", 2222, "ssh"));
    assert_eq!(rec.tags_json, "[\"a\"]");
    let mut u = no_change();
    u.auth_method = Some("none".into());
    u.key_id = Some(None);
    u.group = Some(None);
    u.tags = Some(vec!["x".into()]);
    let rec = merge_host_update(&stored(), u).ok().unwrap();
    assert_eq!(rec.key_id, None);
    assert_eq!(rec.group, None);
    assert_eq!(rec.tags_json, "[\"x\"]");
    let mut u = no_change();
    u.key_id = Some(None);
    assert!(merge_host_update(&stored(), u).is_err());
}

fn imported(key_name: Option<&str>) -> ImportedHost {
    ImportedHost {
        name: "web".into(),
        host: "h".into(),
        port: 22,
        username: "u".into(),
        protocol: "ssh".into(),
        group: None,
        auth_method: "key".into(),
        key_id: Some("old-id".into()),
        password_id: None,
        key_name: key_name.map(|s| s.to_string()),
        tags: vec![],
    }
}

#[test]
fn import_detects_export_shape() {
    assert!(matches!(key_lookup_for(&imported(Some("laptop"))), KeyLookup::ByName(n) if n == "laptop"));
    assert!(matches!(key_lookup_for(&imported(None)), KeyLookup::ById(Some(i)) if i == "old-id"));
    let input = import_input(&imported(None), None, Some("p".into()));
    assert_eq!(input.key_id, None);
    assert_eq!(input.password_id.as_deref(), Some("p"));
}

#[test]
fn import_result_counts_every_host_once() {
    let mut r = ImportResult::new();
    r.record("a", ImportOutcome::Imported);
    r.record("b", ImportOutcome::Skipped);
    r.record("c", ImportOutcome::Failed("boom".into()));
    assert_eq!((r.imported, r.skipped), (1, 1));
    assert_eq!(r.failed, vec!["c: boom".to_string()]);
}

#[test]
fn duplicate_check_decides_skip_fail_or_go_on() {
    assert!(matches!(duplicate_check_outcome(Ok(2)), Some(ImportOutcome::Skipped)));
    assert!(duplicate_check_outcome(Ok(0)).is_none());
    assert!(matches!(duplicate_check_outcome(Err("locked".into())), Some(ImportOutcome::Failed(m)) if m == "locked"));
}
