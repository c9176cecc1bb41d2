use spark_shortcuts::render::{
    get_cursor_position, has_cursor_marker, render_snippet, render_snippet_with_env,
    substitute_calc, substitute_env,
};

#[test]
fn calc_token_evaluates() {
    assert_eq!(render_snippet("{{calc: 2+2}}"), "4");
}

#[test]
fn calc_error_leaves_token_unchanged() {
    assert_eq!(render_snippet("{{calc: 2+}}"), "{{calc: 2+}}");
}

#[test]
fn calc_inside_text() {
    assert_eq!(render_snippet("sum={{calc: 3*7}}!"), "sum=21!");
}

#[test]
fn calc_two_tokens_one_pass() {
    assert_eq!(substitute_calc("{{calc: 1+1}} and {{calc: 10-3}}"), "2 and 7");
}

#[test]
fn calc_unknown_name_leaves_token_unchanged() {
    assert_eq!(render_snippet("{{calc: x+1}}"), "{{calc: x+1}}");
}

#[test]
fn render_is_identity_on_plain_text() {
    assert_eq!(render_snippet("no vars here"), "no vars here");
}

#[test]
fn render_is_idempotent_on_plain_text() {
    let x = "no vars here";
    let once = render_snippet(x);
    let twice = render_snippet(&once);
    assert_eq!(twice, once);
}

#[test]
fn render_leaves_unrecognized_tokens_verbatim() {
    assert_eq!(render_snippet("{{bogus}} {{input:name:hi}}"), "{{bogus}} {{input:name:hi}}");
}

#[test]
fn cursor_position_reports_first_marker_offset() {
    assert_eq!(get_cursor_position("ab{{cursor}}cd"), Some(2));
}

#[test]
fn cursor_position_none_when_absent() {
    assert_eq!(get_cursor_position("abcd"), None);
    assert!(!has_cursor_marker("abcd"));
}

#[test]
fn cursor_marker_detected_and_removed() {
    assert!(has_cursor_marker("ab{{cursor}}cd"));
    assert_eq!(render_snippet("ab{{cursor}}cd"), "abcd");
}

#[test]
fn env_token_resolves_from_supplied_pairs() {
    let env = vec![("NAME".to_string(), "World".to_string())];
    assert_eq!(render_snippet_with_env("Hello {{env:NAME}}!", &env), "Hello World!");
}

#[test]
fn env_token_unset_becomes_empty() {
    assert_eq!(render_snippet("Hello {{env:NO_SUCH_NAME}}!"), "Hello !");
}

#[test]
fn env_first_matching_pair_wins() {
    let env = vec![
        ("A".to_string(), "first".to_string()),
        ("A".to_string(), "second".to_string()),
    ];
    assert_eq!(substitute_env("{{env:A}}", &env), "first");
}

#[test]
fn date_token_is_substituted() {
    let out = render_snippet("year {{date:%Y}} end");
    assert!(out.starts_with("year 2"));
    assert!(out.ends_with(" end"));
    assert!(!out.contains("{{date:"));
}

#[test]
fn time_token_is_substituted() {
    let out = render_snippet("t={{time:%H}}");
    assert!(!out.contains("{{time:"));
    assert_eq!(out.len(), 4);
}

#[test]
fn clock_rejected_format_leaves_token() {
    assert_eq!(render_snippet("{{date:%Q}}"), "{{date:%Q}}");
}

#[test]
fn clipboard_token_does_not_survive_render() {
    let out = render_snippet("ab{{clipboard}}cd");
    assert!(out.starts_with("ab"));
    assert!(out.ends_with("cd"));
}

#[test]
fn unclosed_token_left_verbatim() {
    assert_eq!(render_snippet("{{calc: 2+2"), "{{calc: 2+2");
    assert_eq!(render_snippet("{{env:HOME"), "{{env:HOME");
}

#[test]
fn empty_body_renders_empty() {
    assert_eq!(render_snippet(""), "");
}
