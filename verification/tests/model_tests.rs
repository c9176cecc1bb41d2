use spark_shortcuts::model::{CreateSnippetRequest, Folder, Settings, Snippet, UpdateSnippetRequest};

#[test]
fn default_settings_enable_expansion() {
    let s = Settings::default();
    assert!(s.expand_enabled);
    assert_eq!(s.global_hotkey, "Ctrl+Alt+Space");
    assert!(s.excluded_apps.is_empty());
}

#[test]
fn snippet_record_round_trips_fields() {
    let snippet = Snippet {
        id: 7,
        user_id: 1,
        folder_id: None,
        name: "Green".to_string(),
        shortcut: "/green".to_string(),
        body: "\u{1f7e2} Green Color: #22c55e".to_string(),
        created_at: 1_700_000_000,
        updated_at: 1_700_000_000,
        is_active: true,
        match_type: "exact".to_string(),
    };
    assert_eq!(snippet.shortcut, "/green");
    assert!(snippet.is_active);
    assert_eq!(snippet.match_type, "exact");
}

#[test]
fn requests_carry_optional_fields() {
    let create = CreateSnippetRequest {
        name: "n".to_string(),
        shortcut: "/n".to_string(),
        body: "b".to_string(),
        folder_id: Some(3),
    };
    assert_eq!(create.folder_id, Some(3));
    let update = UpdateSnippetRequest {
        name: None,
        shortcut: None,
        body: Some("b2".to_string()),
        folder_id: None,
        is_active: Some(false),
    };
    assert_eq!(update.is_active, Some(false));
    let folder = Folder { id: 1, user_id: 1, name: "f".to_string(), parent_id: None };
    assert_eq!(folder.parent_id, None);
}
