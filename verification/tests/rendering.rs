use judge_core::{
    done_body, escape_json, not_found_body, query, register_submission, render_response,
    running_body, QueryResponse, TaskRegistry,
};

#[test]
fn plain_text_passes_through_unescaped() {
    assert_eq!(escape_json("hello world"), "hello world");
}

#[test]
fn quotes_backslashes_and_newlines_are_escaped() {
    assert_eq!(escape_json("a\"b"), "a\\\"b");
    assert_eq!(escape_json("a\\b"), "a\\\\b");
    assert_eq!(escape_json("line1\nline2"), "line1\\nline2");
    assert_eq!(escape_json("a\rb\tc"), "a\\rb\\tc");
}

#[test]
fn control_characters_use_the_unicode_form() {
    assert_eq!(escape_json("\u{01}"), "\\u0001");
    assert_eq!(escape_json("\u{1f}"), "\\u001f");
    assert_eq!(escape_json("\u{0b}"), "\\u000b");
}

#[test]
fn fixed_bodies_are_exact() {
    assert_eq!(running_body(), "{\"status\":\"running\"}");
    assert_eq!(not_found_body(), "task not found");
}

#[test]
fn done_body_embeds_the_escaped_outcome() {
    assert_eq!(
        done_body(&String::from("hello\n")),
        "{\"status\":\"done\",\"result\":\"hello\\n\"}"
    );
}

#[test]
fn done_body_is_valid_json_with_the_original_text() {
    let body = done_body(&String::from("said \"hi\"\n\tand \\ left\u{01}"));
    let v: serde_json::Value = serde_json::from_str(&body).expect("body must parse as JSON");
    assert_eq!(v["status"], "done");
    assert_eq!(v["result"], "said \"hi\"\n\tand \\ left\u{01}");
}

#[test]
fn running_body_is_valid_json() {
    let v: serde_json::Value = serde_json::from_str(&running_body()).unwrap();
    assert_eq!(v["status"], "running");
}

#[test]
fn responses_carry_the_right_status_codes() {
    let mut reg = TaskRegistry::new();
    let unknown = String::from("missing");
    let (code, body) = render_response(&query(&reg, &unknown));
    assert_eq!(code, 404);
    assert_eq!(body, "task not found");

    let id = register_submission(&mut reg).unwrap();
    let (code, body) = render_response(&query(&reg, &id));
    assert_eq!(code, 200);
    assert_eq!(body, "{\"status\":\"running\"}");

    reg.set_done(&id, String::from("42\n"));
    let (code, body) = render_response(&query(&reg, &id));
    assert_eq!(code, 200);
    assert_eq!(body, "{\"status\":\"done\",\"result\":\"42\\n\"}");
}

#[test]
fn render_is_idempotent_for_done_jobs() {
    let mut reg = TaskRegistry::new();
    let id = register_submission(&mut reg).unwrap();
    reg.set_done(&id, String::from("stable"));
    let first = render_response(&query(&reg, &id));
    let second = render_response(&query(&reg, &id));
    assert_eq!(first, second);
}

#[test]
fn not_found_never_leaks_other_outcomes() {
    let mut reg = TaskRegistry::new();
    let id = register_submission(&mut reg).unwrap();
    reg.set_done(&id, String::from("secret output"));
    let other = String::from("another-id");
    match query(&reg, &other) {
        QueryResponse::NotFound => {}
        _ => panic!("an unknown identifier must not resolve"),
    }
}
