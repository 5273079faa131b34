//! The read path's answers: what a poll of the registry observes and
//! the exact texts the service hands back for it.
//!
//! The outcome payload is embedded in the `done` body as a JSON string
//! literal; the escaping is specified character by character and the
//! builder is proved against that specification.

use vstd::prelude::*;
use vstd::string::StrSliceExecFns;
use vstd::string::StringExecFns;

use crate::registry::{StatusView, TaskRegistry, TaskStatus, registry_step_at};

verus! {

/// The character standing for a hexadecimal digit value.
pub open spec fn hex_digit(n: int) -> char {
    if n == 0 {
        '0'
    } else if n == 1 {
        '1'
    } else if n == 2 {
        '2'
    } else if n == 3 {
        '3'
    } else if n == 4 {
        '4'
    } else if n == 5 {
        '5'
    } else if n == 6 {
        '6'
    } else if n == 7 {
        '7'
    } else if n == 8 {
        '8'
    } else if n == 9 {
        '9'
    } else if n == 10 {
        'a'
    } else if n == 11 {
        'b'
    } else if n == 12 {
        'c'
    } else if n == 13 {
        'd'
    } else if n == 14 {
        'e'
    } else {
        'f'
    }
}

/// How one character of a payload appears inside a JSON string literal:
/// quote and backslash are escaped, the common control characters get
/// their short escapes, the remaining control characters the `\u00XX`
/// form, and every other character stands as itself.
pub open spec fn json_escape_char(c: char) -> Seq<char> {
    if c == '"' {
        seq!['\\', '"']
    } else if c == '\\' {
        seq!['\\', '\\']
    } else if c == '\n' {
        seq!['\\', 'n']
    } else if c == '\r' {
        seq!['\\', 'r']
    } else if c == '\t' {
        seq!['\\', 't']
    } else if (c as u32) < 32 {
        seq!['\\', 'u', '0', '0', hex_digit((c as u32) as int / 16), hex_digit((c as u32) as int % 16)]
    } else {
        seq![c]
    }
}

/// JSON string escaping of a whole payload.
pub open spec fn json_escape(s: Seq<char>) -> Seq<char>
    decreases s.len(),
{
    if s.len() == 0 {
        Seq::empty()
    } else {
        json_escape(s.drop_last()) + json_escape_char(s.last())
    }
}

/// Relies on String::push: appends exactly the one character.
#[verifier::external_body]
fn push_char(s: &mut String, c: char)
    ensures
        final(s)@ == old(s)@.push(c),
{
    s.push(c);
}

fn hex_digit_char(n: u32) -> (c: char)
    requires
        n < 16,
    ensures
        c == hex_digit(n as int),
{
    if n == 0 {
        '0'
    } else if n == 1 {
        '1'
    } else if n == 2 {
        '2'
    } else if n == 3 {
        '3'
    } else if n == 4 {
        '4'
    } else if n == 5 {
        '5'
    } else if n == 6 {
        '6'
    } else if n == 7 {
        '7'
    } else if n == 8 {
        '8'
    } else if n == 9 {
        '9'
    } else if n == 10 {
        'a'
    } else if n == 11 {
        'b'
    } else if n == 12 {
        'c'
    } else if n == 13 {
        'd'
    } else if n == 14 {
        'e'
    } else {
        'f'
    }
}

fn push_escaped(out: &mut String, c: char)
    ensures
        final(out)@ == old(out)@ + json_escape_char(c),
{
    if c == '"' {
        push_char(out, '\\');
        push_char(out, '"');
        assert(out@ =~= old(out)@ + json_escape_char(c));
    } else if c == '\\' {
        push_char(out, '\\');
        push_char(out, '\\');
        assert(out@ =~= old(out)@ + json_escape_char(c));
    } else if c == '\n' {
        push_char(out, '\\');
        push_char(out, 'n');
        assert(out@ =~= old(out)@ + json_escape_char(c));
    } else if c == '\r' {
        push_char(out, '\\');
        push_char(out, 'r');
        assert(out@ =~= old(out)@ + json_escape_char(c));
    } else if c == '\t' {
        push_char(out, '\\');
        push_char(out, 't');
        assert(out@ =~= old(out)@ + json_escape_char(c));
    } else if (c as u32) < 32 {
        let n: u32 = c as u32;
        push_char(out, '\\');
        push_char(out, 'u');
        push_char(out, '0');
        push_char(out, '0');
        push_char(out, hex_digit_char(n / 16));
        push_char(out, hex_digit_char(n % 16));
        assert(out@ =~= old(out)@ + json_escape_char(c));
    } else {
        push_char(out, c);
        assert(out@ =~= old(out)@ + json_escape_char(c));
    }
}

/// The JSON string escaping of `s`, built character by character.
pub fn escape_json(s: &str) -> (r: String)
    ensures
        r@ == json_escape(s@),
{
    let n: usize = s.unicode_len();
    let mut out = String::new();
    let mut i: usize = 0;
    while i < n
        invariant
            n == s@.len(),
            i <= n,
            out@ == json_escape(s@.subrange(0, i as int)),
        decreases n - i,
    {
        let c = s.get_char(i);
        push_escaped(&mut out, c);
        proof {
            let pre = s@.subrange(0, i as int);
            let ext = s@.subrange(0, i as int + 1);
            assert(ext.drop_last() =~= pre);
            assert(ext.last() == s@[i as int]);
        }
        i += 1;
    }
    proof {
        assert(s@.subrange(0, n as int) =~= s@);
    }
    out
}

/// The response body while a job is pending; identical on every poll.
pub fn running_body() -> (r: String)
    ensures
        r@ == "{\"status\":\"running\"}"@,
{
    String::from_str("{\"status\":\"running\"}")
}

/// The body for an unknown identifier.
pub fn not_found_body() -> (r: String)
    ensures
        r@ == "task not found"@,
{
    String::from_str("task not found")
}

/// The response body of a terminal job: the outcome text, escaped, as
/// the JSON string under `result`.
pub fn done_body(outcome: &String) -> (r: String)
    ensures
        r@ == "{\"status\":\"done\",\"result\":\""@ + json_escape(outcome@) + "\"}"@,
{
    let mut s = String::from_str("{\"status\":\"done\",\"result\":\"");
    let esc = escape_json(outcome.as_str());
    s.append(esc.as_str());
    s.append("\"}");
    s
}

/// A poll of the read path, as the registry answers it.
pub enum QueryResponse {
    NotFound,
    Running,
    Done(String),
}

/// Mathematical value of a [`QueryResponse`].
pub enum QueryView {
    NotFound,
    Running,
    Done(Seq<char>),
}

impl View for QueryResponse {
    type V = QueryView;

    open spec fn view(&self) -> QueryView {
        match self {
            QueryResponse::NotFound => QueryView::NotFound,
            QueryResponse::Running => QueryView::Running,
            QueryResponse::Done(out) => QueryView::Done(out@),
        }
    }
}

/// What a poll of `id` observes of registry state `m`.
pub open spec fn query_spec(m: Map<Seq<char>, StatusView>, id: Seq<char>) -> QueryView {
    if !m.contains_key(id) {
        QueryView::NotFound
    } else {
        match m[id] {
            StatusView::Running => QueryView::Running,
            StatusView::Done(out) => QueryView::Done(out),
        }
    }
}

/// The read path: a point-in-time poll of one identifier.
pub fn query(reg: &TaskRegistry, id: &String) -> (r: QueryResponse)
    requires
        reg.wf(),
    ensures
        r@ == query_spec(reg@, id@),
{
    match reg.get(id) {
        None => QueryResponse::NotFound,
        Some(st) => match st {
            TaskStatus::Running => QueryResponse::Running,
            TaskStatus::Done(out) => QueryResponse::Done(out.clone()),
        },
    }
}

/// HTTP status code and body for each poll answer: not-found is the
/// only non-success; a pending job reads as running; a terminal job
/// carries its outcome text.
pub fn render_response(q: &QueryResponse) -> (r: (u16, String))
    ensures
        q@ is NotFound ==> r.0 == 404 && r.1@ == "task not found"@,
        q@ is Running ==> r.0 == 200 && r.1@ == "{\"status\":\"running\"}"@,
        q@ matches QueryView::Done(out) ==> r.0 == 200 && r.1@ == "{\"status\":\"done\",\"result\":\""@
            + json_escape(out) + "\"}"@,
{
    match q {
        QueryResponse::NotFound => (404, not_found_body()),
        QueryResponse::Running => (200, running_body()),
        QueryResponse::Done(out) => (200, done_body(out)),
    }
}

/// An identifier never submitted polls as not-found — never `running`
/// and never `done`.
pub proof fn lemma_never_submitted_reads_not_found(m: Map<Seq<char>, StatusView>, id: Seq<char>)
    requires
        !m.contains_key(id),
    ensures
        query_spec(m, id) is NotFound,
{
}

/// A submission resolves immediately: polling the returned identifier
/// right after its registration step reads `running`.
pub proof fn lemma_fresh_submission_polls_running(
    pre: Map<Seq<char>, StatusView>,
    post: Map<Seq<char>, StatusView>,
    id: Seq<char>,
)
    requires
        !pre.contains_key(id),
        post == pre.insert(id, StatusView::Running),
    ensures
        query_spec(post, id) is Running,
{
}

/// A registry step for one job is invisible to polls of every other
/// identifier: one job's outcome is never observable under another's.
pub proof fn lemma_poll_unaffected_by_other_jobs(
    pre: Map<Seq<char>, StatusView>,
    post: Map<Seq<char>, StatusView>,
    step_id: Seq<char>,
    id: Seq<char>,
)
    requires
        registry_step_at(pre, post, step_id),
        id != step_id,
    ensures
        query_spec(post, id) == query_spec(pre, id),
{
    crate::registry::lemma_steps_do_not_interfere(pre, post, step_id, id);
}

/// Once a poll observes `done`, a poll after any further registry step
/// observes the identical answer: the terminal payload never changes.
pub proof fn lemma_done_poll_is_stable(
    pre: Map<Seq<char>, StatusView>,
    post: Map<Seq<char>, StatusView>,
    step_id: Seq<char>,
    id: Seq<char>,
)
    requires
        registry_step_at(pre, post, step_id),
        query_spec(pre, id) is Done,
    ensures
        query_spec(post, id) == query_spec(pre, id),
{
    crate::registry::lemma_done_is_stable(pre, post, step_id, id);
}

} // verus!
