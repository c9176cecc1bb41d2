use spark_shortcuts::directory::{default_directory, get_snippet_by_shortcut, SnippetDirectory, SnippetEntry};
use spark_shortcuts::engine::{expand_snippet, on_key_typed, EngineState};
use spark_shortcuts::injector::{simulate_plan, InjectionStep};
use spark_shortcuts::keys::vk_to_char;

const GREEN_BODY: &str = "\u{1f7e2} Green Color: #22c55e";

fn fresh_engine() -> EngineState {
    EngineState::new(default_directory(), Vec::new())
}

#[test]
fn matcher_fires_only_on_completed_shortcut() {
    let mut engine = fresh_engine();
    for c in "hello /gr".chars() {
        assert!(on_key_typed(&mut engine, c).is_none());
    }
    assert!(on_key_typed(&mut engine, 'e').is_none());
    assert!(on_key_typed(&mut engine, 'e').is_none());
    let plan = on_key_typed(&mut engine, 'n').expect("completed shortcut must fire");
    assert_eq!(plan.token, "/green");
    assert_eq!(plan.rendered, GREEN_BODY);
}

#[test]
fn backspace_never_fires_a_match() {
    let mut engine = fresh_engine();
    for c in "/greenx".chars() {
        on_key_typed(&mut engine, c);
    }
    // Deleting the stray character re-completes the token, but matching is
    // only evaluated on insertions.
    assert!(on_key_typed(&mut engine, '\u{8}').is_none());
}

#[test]
fn unknown_shortcut_does_not_fire() {
    let mut engine = fresh_engine();
    for c in "/nosuch".chars() {
        assert!(on_key_typed(&mut engine, c).is_none());
    }
}

#[test]
fn inactive_snippet_does_not_expand() {
    let mut dir = SnippetDirectory::new();
    dir.add(SnippetEntry {
        shortcut: "/off".to_string(),
        body: "hidden".to_string(),
        is_active: false,
    });
    let mut engine = EngineState::new(dir, Vec::new());
    for c in "/off".chars() {
        assert!(on_key_typed(&mut engine, c).is_none());
    }
}

#[test]
fn directory_lookup_filters_by_activity_order() {
    let mut dir = SnippetDirectory::new();
    dir.add(SnippetEntry {
        shortcut: "/x".to_string(),
        body: "inactive".to_string(),
        is_active: false,
    });
    dir.add(SnippetEntry {
        shortcut: "/x".to_string(),
        body: "active".to_string(),
        is_active: true,
    });
    assert_eq!(dir.lookup("/x"), Some("active".to_string()));
    assert_eq!(dir.lookup("/y"), None);
}

#[test]
fn sample_table_serves_stock_shortcuts() {
    assert_eq!(get_snippet_by_shortcut("/green"), Some(GREEN_BODY.to_string()));
    assert_eq!(get_snippet_by_shortcut("/json"), Some("{\"key\": \"value\"}".to_string()));
    assert_eq!(get_snippet_by_shortcut("/send"), Some("Best regards,\nJohn Doe".to_string()));
    assert_eq!(
        get_snippet_by_shortcut("/drop"),
        Some("Let me know if you need anything else!".to_string())
    );
    assert_eq!(get_snippet_by_shortcut("/other"), None);
}

#[test]
fn expansion_issues_exact_deletions_and_restores_clipboard() {
    let plan = expand_snippet("/green", GREEN_BODY);
    let outcome = simulate_plan(&plan, "previous clipboard");
    assert_eq!(outcome.deletions, 6);
    assert_eq!(outcome.pasted_with, Some(GREEN_BODY.to_string()));
    assert_eq!(outcome.final_clipboard, "previous clipboard");
}

#[test]
fn expansion_step_order_is_fixed() {
    let plan = expand_snippet("/ab", "text");
    let steps = &plan.steps;
    assert_eq!(steps.len(), 3 + 5);
    assert!(matches!(steps[0], InjectionStep::DeleteKey));
    assert!(matches!(steps[1], InjectionStep::DeleteKey));
    assert!(matches!(steps[2], InjectionStep::DeleteKey));
    assert!(matches!(steps[3], InjectionStep::SaveClipboard));
    match &steps[4] {
        InjectionStep::SetClipboard(t) => assert_eq!(t, "text"),
        other => panic!("expected SetClipboard, got {:?}", step_name(other)),
    }
    assert!(matches!(steps[5], InjectionStep::PasteKey));
    assert!(matches!(steps[6], InjectionStep::RestoreDelay));
    assert!(matches!(steps[7], InjectionStep::RestoreClipboard));
}

fn step_name(step: &InjectionStep) -> &'static str {
    match step {
        InjectionStep::DeleteKey => "DeleteKey",
        InjectionStep::SaveClipboard => "SaveClipboard",
        InjectionStep::SetClipboard(_) => "SetClipboard",
        InjectionStep::PasteKey => "PasteKey",
        InjectionStep::RestoreDelay => "RestoreDelay",
        InjectionStep::RestoreClipboard => "RestoreClipboard",
    }
}

#[test]
fn expansion_carries_cursor_offset() {
    let plan = expand_snippet("/sig", "hi {{cursor}}there");
    assert_eq!(plan.cursor, Some(3));
    assert_eq!(plan.rendered, "hi there");
    let no_marker = expand_snippet("/sig", "plain");
    assert_eq!(no_marker.cursor, None);
}

#[test]
fn vk_codes_map_to_characters() {
    assert_eq!(vk_to_char(0x30), Some('0'));
    assert_eq!(vk_to_char(0x39), Some('9'));
    assert_eq!(vk_to_char(0x41), Some('a'));
    assert_eq!(vk_to_char(0x5A), Some('z'));
    assert_eq!(vk_to_char(0xBF), Some('/'));
    assert_eq!(vk_to_char(0xBD), Some('-'));
    assert_eq!(vk_to_char(0xBE), Some('.'));
    assert_eq!(vk_to_char(0xBC), Some(','));
    assert_eq!(vk_to_char(0x20), Some(' '));
    assert_eq!(vk_to_char(0x08), Some('\u{8}'));
    assert_eq!(vk_to_char(0x10), None);
}
