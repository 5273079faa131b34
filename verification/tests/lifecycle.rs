use judge_core::{
    advance, finish_job, query, register_submission, run_outcome, Advance, QueryResponse, Stage,
    TaskRegistry,
};

fn finish_text(a: Advance) -> String {
    match a {
        Advance::Finish(out) => out,
        Advance::Next(_) => panic!("expected a terminal decision"),
    }
}

#[test]
fn submission_resolves_immediately_as_running() {
    let mut reg = TaskRegistry::new();
    let id = register_submission(&mut reg).expect("fresh registry must accept a submission");
    assert_eq!(id.len(), 36);
    match query(&reg, &id) {
        QueryResponse::Running => {}
        _ => panic!("a just-registered job must read as running"),
    }
}

#[test]
fn submission_is_owed_when_no_stored_key_can_collide() {
    let mut reg = TaskRegistry::new();
    reg.create(String::from("short-key"));
    let id = register_submission(&mut reg)
        .expect("no stored identifier has a drawn identifier's length, so success is owed");
    assert_ne!(id, "short-key");
    match query(&reg, &id) {
        QueryResponse::Running => {}
        _ => panic!("the accepted submission must read as running"),
    }
}

#[test]
fn never_submitted_identifier_reads_not_found() {
    let reg = TaskRegistry::new();
    let id = String::from("no-such-job");
    match query(&reg, &id) {
        QueryResponse::NotFound => {}
        _ => panic!("an unknown identifier must read as not-found"),
    }
}

#[test]
fn done_reads_are_stable_and_identical() {
    let mut reg = TaskRegistry::new();
    let id = register_submission(&mut reg).unwrap();
    reg.set_done(&id, String::from("hello\n"));
    for _ in 0..3 {
        match query(&reg, &id) {
            QueryResponse::Done(out) => assert_eq!(out, "hello\n"),
            _ => panic!("a terminal job must keep reading as done"),
        }
    }
}

#[test]
fn distinct_jobs_keep_their_own_outcomes() {
    let mut reg = TaskRegistry::new();
    let mut ids: Vec<String> = Vec::new();
    for _ in 0..10 {
        ids.push(register_submission(&mut reg).unwrap());
    }
    for (k, id) in ids.iter().enumerate() {
        reg.set_done(id, format!("outcome-{k}"));
    }
    for (k, id) in ids.iter().enumerate() {
        match query(&reg, id) {
            QueryResponse::Done(out) => assert_eq!(out, format!("outcome-{k}")),
            _ => panic!("every job must reach its own terminal value"),
        }
    }
}

#[test]
fn identifiers_of_separate_submissions_differ() {
    let mut reg = TaskRegistry::new();
    let a = register_submission(&mut reg).unwrap();
    let b = register_submission(&mut reg).unwrap();
    assert_ne!(a, b);
    match query(&reg, &a) {
        QueryResponse::Running => {}
        _ => panic!("first job must still be running"),
    }
}

#[test]
fn write_failure_is_terminal_with_marker() {
    let decision = advance(Stage::Write, false, String::from("permission denied"));
    assert_eq!(finish_text(decision), "write failed: permission denied");
}

#[test]
fn compile_failure_is_terminal_and_never_runs() {
    let first = advance(Stage::Write, true, String::new());
    match first {
        Advance::Next(Stage::Compile) => {}
        _ => panic!("a successful write must hand out the compile stage"),
    }
    let decision = advance(Stage::Compile, false, String::from("exit status: 1"));
    let out = finish_text(decision);
    assert_eq!(out, "compile failed: exit status: 1");

    let mut reg = TaskRegistry::new();
    let id = register_submission(&mut reg).unwrap();
    reg.set_done(&id, out);
    match query(&reg, &id) {
        QueryResponse::Done(text) => assert!(text.starts_with("compile failed: ")),
        _ => panic!("the job must be done"),
    }
}

#[test]
fn successful_run_returns_captured_output_exactly() {
    let captured = run_outcome(true, b"hello\n".to_vec(), Vec::new())
        .expect("a success exit must yield the stdout text");
    assert_eq!(captured, "hello\n");
    let decision = advance(Stage::Run, true, captured);
    assert_eq!(finish_text(decision), "hello\n");
}

#[test]
fn failing_run_is_marked_and_distinguishable() {
    let err = run_outcome(false, b"partial".to_vec(), b"assertion failed\n".to_vec())
        .expect_err("a failure exit must yield the stderr text");
    assert_eq!(err, "assertion failed\n");
    let decision = advance(Stage::Run, false, err);
    let out = finish_text(decision);
    assert_eq!(out, "run failed: assertion failed\n");
    assert!(out.starts_with("run failed: "));
    assert!(!"hello\n".starts_with("run failed: "));
}

#[test]
fn run_outcome_decodes_invalid_bytes_lossily() {
    let captured = run_outcome(true, vec![0xff, b'h', b'i'], Vec::new()).unwrap();
    assert_eq!(captured, "\u{fffd}hi");
}

#[test]
fn a_second_terminal_write_is_refused() {
    let mut reg = TaskRegistry::new();
    let id = register_submission(&mut reg).unwrap();
    assert!(finish_job(&mut reg, &id, String::from("first")));
    assert!(!finish_job(&mut reg, &id, String::from("second")));
    match query(&reg, &id) {
        QueryResponse::Done(out) => assert_eq!(out, "first"),
        _ => panic!("the job must stay done"),
    }
}

#[test]
fn finishing_an_unknown_job_does_nothing() {
    let mut reg = TaskRegistry::new();
    let id = String::from("never-registered");
    assert!(!finish_job(&mut reg, &id, String::from("out")));
    match query(&reg, &id) {
        QueryResponse::NotFound => {}
        _ => panic!("an unknown identifier must stay unknown"),
    }
}

#[test]
fn run_stages_advance_in_order() {
    match advance(Stage::Write, true, String::new()) {
        Advance::Next(Stage::Compile) => {}
        _ => panic!("write must be followed by compile"),
    }
    match advance(Stage::Compile, true, String::new()) {
        Advance::Next(Stage::Run) => {}
        _ => panic!("compile must be followed by run"),
    }
}
