use sheil::snippets::{
    merge_snippet_update, snippet_from_columns, snippet_record_for_insert, SnippetColumns,
    SnippetError, SnippetInput, SnippetUpdate,
};

fn sample_input() -> SnippetInput {
    SnippetInput {
        name: "disk usage".into(),
        command: "df -h".into(),
        description: Some("Show disk usage".into()),
        group: Some("Monitoring".into()),
        tags: vec!["disk".into(), "ops".into()],
        host_id: None,
        host_group: None,
    }
}

#[test]
fn snippets_validation_rejects_empty_name() {
    let mut input = sample_input();
    input.name = String::new();
    assert!(input.validate().is_err());
}

#[test]
fn validation_rejects_empty_command() {
    let mut input = sample_input();
    input.command = "   ".into();
    assert!(input.validate().is_err());
}

#[test]
fn validation_rejects_both_scopes() {
    let mut input = sample_input();
    input.host_id = Some("host-1".into());
    input.host_group = Some("Production".into());
    assert!(input.validate().is_err());
}

#[test]
fn snippets_validation_accepts_valid_input() {
    assert!(sample_input().validate().is_ok());
}

#[test]
fn snippet_messages() {
    let mut input = sample_input();
    input.host_id = Some("h".into());
    input.host_group = Some("g".into());
    match input.validate() {
        Err(e) => assert_eq!(
            e.message(),
            "validation error: a snippet can be scoped to either a host or a host group, not both"
        ),
        Ok(()) => panic!("expected an error"),
    }
    assert_eq!(SnippetError::NotFound("s1".into()).message(), "snippet not found: s1");
}

fn stored() -> SnippetColumns {
    SnippetColumns {
        id: Some("s1".into()),
        name: Some("n".into()),
        command: Some("ls".into()),
        description: Some("d".into()),
        group: None,
        tags: None,
        host_id: None,
        host_group: Some("Prod".into()),
        created_at: None,
        updated_at: None,
    }
}

fn no_change() -> SnippetUpdate {
    SnippetUpdate {
        name: None,
        command: None,
        description: None,
        group: None,
        tags: None,
        host_id: None,
        host_group: None,
    }
}

#[test]
fn update_scopes_stay_exclusive() {
    let mut u = no_change();
    u.host_id = Some(Some("h1".into()));
    let rec = merge_snippet_update(&stored(), u).ok().unwrap();
    assert_eq!(rec.host_id.as_deref(), Some("h1"));
    assert_eq!(rec.host_group, None);
    let mut u = no_change();
    u.description = Some(None);
    let rec = merge_snippet_update(&stored(), u).ok().unwrap();
    assert_eq!(rec.description, None);
    assert_eq!(rec.host_group.as_deref(), Some("Prod"));
    assert_eq!(rec.tags_json, "[]");
    let mut u = no_change();
    u.command = Some(" ".into());
    assert!(merge_snippet_update(&stored(), u).is_err());
}

#[test]
fn snippet_rows_decode_and_encode() {
    let s = snippet_from_columns(&stored());
    assert_eq!(s.command, "ls");
    assert!(s.tags.is_empty());
    let rec = snippet_record_for_insert(&sample_input()).ok().unwrap();
    assert_eq!(rec.tags_json, "[\"disk\",\"ops\"]");
}
