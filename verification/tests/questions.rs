use judge_core::{
    json_array, question_path, summary_body, Question, QuestionStore, Templates,
};

#[test]
fn new_question_has_no_templates() {
    let q = Question::new(
        String::from("1"),
        String::from("Two Sum"),
        String::from("Find two indices."),
    );
    assert_eq!(q.id, "1");
    assert_eq!(q.title, "Two Sum");
    assert_eq!(q.description, "Find two indices.");
    assert!(q.templates.is_none());
}

#[test]
fn with_templates_attaches_them() {
    let q = Question::new(String::from("2"), String::from("t"), String::from("d"));
    let q = q.with_templates(Templates {
        cpp: Some(String::from("int main() {}")),
        python: None,
        rust: None,
    });
    let t = q.templates.expect("templates must be attached");
    assert_eq!(t.cpp.as_deref(), Some("int main() {}"));
    assert!(t.python.is_none());
    assert_eq!(q.id, "2");
}

#[test]
fn store_lookup_follows_saves() {
    let mut store = QuestionStore::new();
    let missing = String::from("1");
    assert!(store.get(&missing).is_none());
    store.save(Question::new(
        String::from("1"),
        String::from("first"),
        String::from("d1"),
    ));
    let got = store.get(&missing).expect("saved question must resolve");
    assert_eq!(got.title, "first");
}

#[test]
fn saving_again_overwrites_the_record() {
    let mut store = QuestionStore::new();
    let id = String::from("7");
    store.save(Question::new(id.clone(), String::from("old"), String::from("d")));
    store.save(Question::new(id.clone(), String::from("new"), String::from("d2")));
    let got = store.get(&id).unwrap();
    assert_eq!(got.title, "new");
    assert_eq!(got.description, "d2");
    assert_eq!(store.ids(), vec![String::from("7")]);
}

#[test]
fn ids_lists_every_stored_question_once() {
    let mut store = QuestionStore::new();
    store.save(Question::new(String::from("a"), String::from("ta"), String::from("da")));
    store.save(Question::new(String::from("b"), String::from("tb"), String::from("db")));
    let mut ids = store.ids();
    ids.sort();
    assert_eq!(ids, vec![String::from("a"), String::from("b")]);
}

#[test]
fn summary_body_renders_the_three_fields() {
    let q = Question::new(
        String::from("1"),
        String::from("A \"quoted\" title"),
        String::from("line1\nline2"),
    );
    assert_eq!(
        summary_body(&q),
        "{\"id\":\"1\",\"title\":\"A \\\"quoted\\\" title\",\"description\":\"line1\\nline2\"}"
    );
}

#[test]
fn summary_body_parses_and_omits_templates() {
    let q = Question::new(String::from("9"), String::from("t"), String::from("d"))
        .with_templates(Templates { cpp: None, python: None, rust: None });
    let v: serde_json::Value = serde_json::from_str(&summary_body(&q)).unwrap();
    assert_eq!(v["id"], "9");
    assert_eq!(v["title"], "t");
    assert_eq!(v["description"], "d");
    assert!(v.get("templates").is_none());
}

#[test]
fn json_array_joins_with_commas() {
    assert_eq!(json_array(&Vec::new()), "[]");
    assert_eq!(json_array(&vec![String::from("{}")]), "[{}]");
    assert_eq!(
        json_array(&vec![String::from("1"), String::from("2"), String::from("3")]),
        "[1,2,3]"
    );
}

#[test]
fn question_records_persist_under_their_identifier() {
    let id = String::from("42");
    assert_eq!(question_path(&id), "questions/42.json");
}
