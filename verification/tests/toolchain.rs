use judge_core::{binary_path, source_path, Compiler, Execute, SubmitReq};

#[test]
fn artifact_paths_are_namespaced_by_identifier() {
    let id = String::from("abc-123");
    assert_eq!(source_path(&id), "../generate/abc-123.cpp");
    assert_eq!(binary_path(&id), "../bin/abc-123");
}

#[test]
fn paths_of_distinct_jobs_are_distinct() {
    let a = String::from("job-a");
    let b = String::from("job-b");
    assert_ne!(source_path(&a), source_path(&b));
    assert_ne!(binary_path(&a), binary_path(&b));
}

#[test]
fn compiler_holds_the_submission_text() {
    let req = SubmitReq {
        lang: String::from("cpp"),
        code: String::from("int main() { return 0; }"),
    };
    let compiler = Compiler::new(req, String::from("cpp"));
    assert_eq!(compiler.code(), "int main() { return 0; }");
}

#[test]
fn compile_command_is_pinned() {
    let req = SubmitReq {
        lang: String::from("cpp"),
        code: String::new(),
    };
    let compiler = Compiler::new(req, String::from("cpp"));
    assert_eq!(compiler.compiler_program(), "g++");
    let src = String::from("../generate/x.cpp");
    let out = String::from("../bin/x");
    let args = compiler.compile_args(&src, &out);
    assert_eq!(args, vec!["../generate/x.cpp", "-o", "../bin/x", "-std=c++17"]);
}

#[test]
fn execute_keeps_the_binary_path() {
    let exec = Execute::new(String::from("../bin/xyz"));
    assert_eq!(exec.binary(), "../bin/xyz");
}
