//! The job registry: the store from job identifier to lifecycle status.
//!
//! The registry is the single source of truth for the read path.  Its
//! mathematical value is a map from identifier (a sequence of
//! characters) to [`StatusView`].  The two mutating operations keep the
//! central invariant of the lifecycle: an entry is created `Running`,
//! moves to `Done` at most once, and never changes afterwards.

use vstd::prelude::*;

use crate::store::KeyedList;

verus! {

/// Lifecycle status of one submission, as stored in the registry.
pub enum TaskStatus {
    /// The background work has not reached a terminal state yet.
    Running,
    /// Terminal: the payload is either captured program output or a
    /// failure description.
    Done(String),
}

/// Mathematical value of a [`TaskStatus`].
pub enum StatusView {
    Running,
    Done(Seq<char>),
}

impl View for TaskStatus {
    type V = StatusView;

    open spec fn view(&self) -> StatusView {
        match self {
            TaskStatus::Running => StatusView::Running,
            TaskStatus::Done(out) => StatusView::Done(out@),
        }
    }
}

/// The data structure itself is single-threaded; the service wraps it
/// in one exclusion domain scoped to map reads and writes alone, which
/// suffices because no stage work happens while it is held.
pub struct TaskRegistry {
    inner: KeyedList<TaskStatus>,
}

/// The transition relation of the registry: every permitted mutation
/// targets one identifier `id` and is either the registration of a fresh
/// job as `Running` or the single terminal write of a `Running` job.
/// Both mutating operations establish this relation, so every reachable
/// registry history is a chain of such steps.
pub open spec fn registry_step_at(
    pre: Map<Seq<char>, StatusView>,
    post: Map<Seq<char>, StatusView>,
    id: Seq<char>,
) -> bool {
    ||| (!pre.contains_key(id) && post == pre.insert(id, StatusView::Running))
    ||| (pre.contains_key(id) && pre[id] is Running && post.contains_key(id)
            && post[id] is Done && post == pre.insert(id, post[id]))
}

impl View for TaskRegistry {
    type V = Map<Seq<char>, StatusView>;

    closed spec fn view(&self) -> Map<Seq<char>, StatusView> {
        self.inner@
    }
}

impl TaskRegistry {
    /// Internal invariant of the underlying store.
    pub closed spec fn wf(&self) -> bool {
        self.inner.wf()
    }

    /// An empty registry: no identifier resolves.
    pub fn new() -> (r: TaskRegistry)
        ensures
            r.wf(),
            r@ == Map::<Seq<char>, StatusView>::empty(),
    {
        TaskRegistry { inner: KeyedList::new() }
    }

    /// Registers a fresh identifier as `Running`; the first externally
    /// observable state of a job.
    pub fn create(&mut self, id: String)
        requires
            old(self).wf(),
            !old(self)@.contains_key(id@),
        ensures
            final(self).wf(),
            final(self)@ == old(self)@.insert(id@, StatusView::Running),
            registry_step_at(old(self)@, final(self)@, id@),
    {
        self.inner.upsert(id, TaskStatus::Running);
    }

    /// Records the terminal outcome of a job.  The orchestrator owns the
    /// only write path and calls this at most once per identifier, which
    /// the precondition (`Running`) enforces: a `Done` entry can never
    /// be written again.
    pub fn set_done(&mut self, id: &String, outcome: String)
        requires
            old(self).wf(),
            old(self)@.contains_key(id@),
            old(self)@[id@] is Running,
        ensures
            final(self).wf(),
            final(self)@ == old(self)@.insert(id@, StatusView::Done(outcome@)),
            registry_step_at(old(self)@, final(self)@, id@),
    {
        self.inner.upsert(id.clone(), TaskStatus::Done(outcome));
    }

    /// Point-in-time read of a job's status; `None` for an identifier
    /// that was never registered.  Never blocks and never mutates.
    pub fn get(&self, id: &String) -> (r: Option<&TaskStatus>)
        requires
            self.wf(),
        ensures
            match r {
                Some(st) => self@.contains_key(id@) && st@ == self@[id@],
                None => !self@.contains_key(id@),
            },
    {
        self.inner.get(id)
    }
}

/// A job just registered resolves at once: right after its creation step
/// the identifier is present and reads as `Running`.
pub proof fn lemma_created_job_is_running(
    pre: Map<Seq<char>, StatusView>,
    post: Map<Seq<char>, StatusView>,
    id: Seq<char>,
)
    requires
        !pre.contains_key(id),
        post == pre.insert(id, StatusView::Running),
    ensures
        post.contains_key(id),
        post[id] is Running,
{
}

/// Monotonicity: once an identifier reads as `Done`, every later
/// registry step leaves its entry untouched, so all subsequent reads
/// return the identical terminal payload.
pub proof fn lemma_done_is_stable(
    pre: Map<Seq<char>, StatusView>,
    post: Map<Seq<char>, StatusView>,
    step_id: Seq<char>,
    id: Seq<char>,
)
    requires
        registry_step_at(pre, post, step_id),
        pre.contains_key(id),
        pre[id] is Done,
    ensures
        post.contains_key(id),
        post[id] == pre[id],
{
    assert(step_id != id);
}

/// At-most-one-terminal-write: a `Done` entry admits no further step
/// under its own identifier, of either kind.
pub proof fn lemma_terminal_write_is_final(
    pre: Map<Seq<char>, StatusView>,
    post: Map<Seq<char>, StatusView>,
    id: Seq<char>,
)
    requires
        pre.contains_key(id),
        pre[id] is Done,
    ensures
        !registry_step_at(pre, post, id),
{
}

/// Isolation: a step for one job is invisible under every other
/// identifier — jobs with distinct identifiers never interfere, and one
/// job's outcome is never observable under another's identifier.
pub proof fn lemma_steps_do_not_interfere(
    pre: Map<Seq<char>, StatusView>,
    post: Map<Seq<char>, StatusView>,
    step_id: Seq<char>,
    id: Seq<char>,
)
    requires
        registry_step_at(pre, post, step_id),
        id != step_id,
    ensures
        post.contains_key(id) == pre.contains_key(id),
        pre.contains_key(id) ==> post[id] == pre[id],
{
}

} // verus!
