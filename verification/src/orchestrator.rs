//! The job orchestrator: the state machine that drives one submission
//! through write → compile → run and records a single terminal outcome.
//!
//! All file and process work happens outside this crate; the caller
//! performs each stage and feeds its result back into [`advance`], so
//! the sequencing and the outcome text are decided — and verified —
//! here, for every possible stage result.

use vstd::prelude::*;
use vstd::string::StringExecFns;

use crate::registry::{StatusView, TaskRegistry, TaskStatus, registry_step_at};

verus! {

/// A submission as received on the write path: a declared language tag
/// and the raw, untrusted source text.
pub struct SubmitReq {
    pub lang: String,
    pub code: String,
}

/// Holds one submission and the language tag the toolchain is invoked
/// for, and decides what the toolchain is handed.
pub struct Compiler {
    submit: SubmitReq,
    compiler_lang: String,
}

impl Compiler {
    /// The source text of the held submission.
    pub closed spec fn code_view(&self) -> Seq<char> {
        self.submit.code@
    }

    /// The language tag the compiler was constructed with.
    pub closed spec fn lang_view(&self) -> Seq<char> {
        self.compiler_lang@
    }

    pub fn new(submit: SubmitReq, lang: String) -> (r: Compiler)
        ensures
            r.code_view() == submit.code@,
            r.lang_view() == lang@,
    {
        Compiler { submit, compiler_lang: lang }
    }

    /// The exact text the write stage persists: the submission's source,
    /// unaltered.
    pub fn code(&self) -> (r: &String)
        ensures
            r@ == self.code_view(),
    {
        &self.submit.code
    }

    /// The program name of the external toolchain.
    pub fn compiler_program(&self) -> (r: String)
        ensures
            r@ == "g++"@,
    {
        String::from_str("g++")
    }

    /// The argument vector handed to the external compiler: the source
    /// path, the output flag with its path, and the pinned language
    /// standard.
    pub fn compile_args(&self, src_path: &String, out_bin: &String) -> (r: Vec<String>)
        ensures
            r@.len() == 4,
            r@[0]@ == src_path@,
            r@[1]@ == "-o"@,
            r@[2]@ == out_bin@,
            r@[3]@ == "-std=c++17"@,
    {
        let mut args: Vec<String> = Vec::new();
        args.push(src_path.clone());
        args.push(String::from_str("-o"));
        args.push(out_bin.clone());
        args.push(String::from_str("-std=c++17"));
        args
    }
}

/// Launches the produced artifact; holds its path.
pub struct Execute {
    bin: String,
}

impl Execute {
    /// The path of the artifact to run.
    pub closed spec fn bin_view(&self) -> Seq<char> {
        self.bin@
    }

    pub fn new(binary: String) -> (r: Execute)
        ensures
            r.bin_view() == binary@,
    {
        Execute { bin: binary }
    }

    /// The artifact path, for the caller that spawns the child process.
    pub fn binary(&self) -> (r: &String)
        ensures
            r@ == self.bin_view(),
    {
        &self.bin
    }
}

/// What `String::from_utf8_lossy` decodes the given bytes to; it
/// depends on the bytes alone.
pub uninterp spec fn lossy_utf8(bytes: Seq<u8>) -> Seq<char>;

/// Relies on String::from_utf8_lossy: decodes the bytes as text,
/// replacing invalid sequences rather than failing; empty input decodes
/// to empty text.
#[verifier::external_body]
fn utf8_lossy(bytes: &Vec<u8>) -> (r: String)
    ensures
        r@ == lossy_utf8(bytes@),
        bytes@.len() == 0 ==> r@.len() == 0,
{
    String::from_utf8_lossy(bytes).into_owned()
}

/// Classification of a finished child process, exactly as the runner
/// reports it: on a success exit status, the captured standard output
/// decoded as text; on any other exit, the captured standard error as
/// the failure payload.
pub fn run_outcome(exit_success: bool, stdout: Vec<u8>, stderr: Vec<u8>) -> (r: Result<
    String,
    String,
>)
    ensures
        exit_success ==> (r matches Ok(out) && out@ == lossy_utf8(stdout@)),
        !exit_success ==> (r matches Err(err) && err@ == lossy_utf8(stderr@)),
{
    if exit_success {
        Ok(utf8_lossy(&stdout))
    } else {
        Err(utf8_lossy(&stderr))
    }
}

/// The stages of the background pipeline, in execution order.
#[derive(Clone, Copy, PartialEq, Eq, Structural, Debug)]
pub enum Stage {
    Write,
    Compile,
    Run,
}

/// What the orchestrator does once a stage has reported back: hand the
/// next stage to the caller, or record the job's single terminal value.
pub enum Advance {
    Next(Stage),
    Finish(String),
}

/// Mathematical value of an [`Advance`].
pub enum AdvanceView {
    Next(Stage),
    Finish(Seq<char>),
}

impl View for Advance {
    type V = AdvanceView;

    open spec fn view(&self) -> AdvanceView {
        match self {
            Advance::Next(s) => AdvanceView::Next(*s),
            Advance::Finish(out) => AdvanceView::Finish(out@),
        }
    }
}

/// The orchestrator's decision for every stage and stage result: the
/// stages run strictly in order, each stage's failure is terminal with
/// a stage-naming text around the detail, and the run stage's success
/// payload — the captured output — is the outcome itself.
pub open spec fn advance_spec(stage: Stage, success: bool, detail: Seq<char>) -> AdvanceView {
    match stage {
        Stage::Write => if success {
            AdvanceView::Next(Stage::Compile)
        } else {
            AdvanceView::Finish("write failed: "@ + detail)
        },
        Stage::Compile => if success {
            AdvanceView::Next(Stage::Run)
        } else {
            AdvanceView::Finish("compile failed: "@ + detail)
        },
        Stage::Run => if success {
            AdvanceView::Finish(detail)
        } else {
            AdvanceView::Finish("run failed: "@ + detail)
        },
    }
}

/// A text prefixed with a stage-failure marker.
fn prefixed(prefix: &str, detail: &String) -> (r: String)
    ensures
        r@ == prefix@ + detail@,
{
    let mut s = String::from_str(prefix);
    s.append(detail.as_str());
    s
}

/// One decision of the orchestrator's state machine.  `success` is the
/// stage's verdict; `detail` is its payload — a failure description, or
/// for a successful run the captured output.
pub fn advance(stage: Stage, success: bool, detail: String) -> (r: Advance)
    ensures
        r@ == advance_spec(stage, success, detail@),
{
    match stage {
        Stage::Write => {
            if success {
                Advance::Next(Stage::Compile)
            } else {
                Advance::Finish(prefixed("write failed: ", &detail))
            }
        },
        Stage::Compile => {
            if success {
                Advance::Next(Stage::Run)
            } else {
                Advance::Finish(prefixed("compile failed: ", &detail))
            }
        },
        Stage::Run => {
            if success {
                Advance::Finish(detail)
            } else {
                Advance::Finish(prefixed("run failed: ", &detail))
            }
        },
    }
}

/// A failing stage is terminal: the state machine never hands out a
/// further stage for it, so after a failed compile no artifact is run.
pub proof fn lemma_failure_is_terminal(stage: Stage, detail: Seq<char>)
    ensures
        advance_spec(stage, false, detail) is Finish,
{
}

/// The source artifact path of a job, namespaced by its identifier:
/// no two jobs share a source file.
pub fn source_path(task_id: &String) -> (r: String)
    ensures
        r@ == "../generate/"@ + task_id@ + ".cpp"@,
{
    let mut s = String::from_str("../generate/");
    s.append(task_id.as_str());
    s.append(".cpp");
    s
}

/// The binary artifact path of a job, namespaced by its identifier.
pub fn binary_path(task_id: &String) -> (r: String)
    ensures
        r@ == "../bin/"@ + task_id@,
{
    let mut s = String::from_str("../bin/");
    s.append(task_id.as_str());
    s
}

/// The terminal transition of one job: records the outcome decided by
/// the stages, provided the job is still `Running`.  Returns whether the
/// write took place; a job already terminal — or never registered — is
/// left untouched, so no second terminal write can ever land.
pub fn finish_job(reg: &mut TaskRegistry, id: &String, outcome: String) -> (r: bool)
    requires
        old(reg).wf(),
    ensures
        final(reg).wf(),
        r == (old(reg)@.contains_key(id@) && old(reg)@[id@] is Running),
        r ==> final(reg)@ == old(reg)@.insert(id@, StatusView::Done(outcome@))
            && registry_step_at(old(reg)@, final(reg)@, id@),
        !r ==> final(reg)@ == old(reg)@,
{
    match reg.get(id) {
        Some(st) => match st {
            TaskStatus::Running => {
                reg.set_done(id, outcome);
                true
            },
            TaskStatus::Done(_) => false,
        },
        None => false,
    }
}

/// Artifact paths are injective in the identifier: jobs with distinct
/// identifiers never share a source or binary path, so concurrent jobs
/// never contend on a file.
pub proof fn lemma_paths_are_disjoint(a: Seq<char>, b: Seq<char>)
    requires
        a != b,
    ensures
        "../generate/"@ + a + ".cpp"@ != "../generate/"@ + b + ".cpp"@,
        "../bin/"@ + a != "../bin/"@ + b,
{
    reveal_strlit("../generate/");
    reveal_strlit(".cpp");
    reveal_strlit("../bin/");
    if "../generate/"@ + a + ".cpp"@ == "../generate/"@ + b + ".cpp"@ {
        assert(("../generate/"@ + a + ".cpp"@).len() == 16 + a.len());
        assert(("../generate/"@ + b + ".cpp"@).len() == 16 + b.len());
        assert(a.len() == b.len());
        assert forall|i: int| 0 <= i < a.len() implies a[i] == b[i] by {
            assert(("../generate/"@ + a + ".cpp"@)[12 + i] == a[i]);
            assert(("../generate/"@ + b + ".cpp"@)[12 + i] == b[i]);
        }
        assert(a =~= b);
    }
    if "../bin/"@ + a == "../bin/"@ + b {
        assert(("../bin/"@ + a).len() == 7 + a.len());
        assert(("../bin/"@ + b).len() == 7 + b.len());
        assert(a.len() == b.len());
        assert forall|i: int| 0 <= i < a.len() implies a[i] == b[i] by {
            assert(("../bin/"@ + a)[7 + i] == a[i]);
            assert(("../bin/"@ + b)[7 + i] == b[i]);
        }
        assert(a =~= b);
    }
}

/// Relies on uuid::Uuid::new_v4 and its hyphenated `Display` form: a
/// random version-4 identifier rendered as 36 characters.  The value is
/// random, so nothing more is promised of it.
#[verifier::external_body]
fn fresh_task_id() -> (r: String)
    ensures
        r@.len() == 36,
{
    uuid::Uuid::new_v4().to_string()
}

/// Allocates an identifier and registers the job as `Running` — the
/// whole of the submission path's registry work, after which the caller
/// returns the identifier to the submitter and drives the stages in the
/// background.  Identifier collisions are not expected of random
/// 128-bit identifiers; rather than overwrite a colliding job this
/// declines the submission after a bounded number of draws, leaving the
/// registry unchanged.  A decline can only follow a collision: whenever
/// no stored identifier even has a drawn identifier's length — so on an
/// empty registry in particular — success is owed.
pub fn register_submission(reg: &mut TaskRegistry) -> (r: Option<String>)
    requires
        old(reg).wf(),
    ensures
        final(reg).wf(),
        match r {
            Some(id) => !old(reg)@.contains_key(id@) && final(reg)@ == old(reg)@.insert(
                id@,
                StatusView::Running,
            ) && registry_step_at(old(reg)@, final(reg)@, id@) && id@.len() == 36,
            None => final(reg)@ == old(reg)@,
        },
        (forall|k: Seq<char>| old(reg)@.contains_key(k) ==> k.len() != 36) ==> r is Some,
{
    let mut attempts: usize = 0;
    while attempts < 8
        invariant
            *reg == *old(reg),
            reg.wf(),
            attempts > 0 ==> exists|k: Seq<char>| old(reg)@.contains_key(k) && k.len() == 36,
        decreases 8 - attempts,
    {
        let id = fresh_task_id();
        match reg.get(&id) {
            None => {
                let returned = id.clone();
                reg.create(id);
                return Some(returned);
            },
            Some(_) => {
                // the draw collided, so a 36-character key is stored
                proof {
                    assert(old(reg)@.contains_key(id@) && id@.len() == 36);
                }
            },
        }
        attempts += 1;
    }
    None
}

} // verus!
