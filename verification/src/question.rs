//! The question bank: records of problem text keyed by identifier, and
//! the exact list body the service hands back for them.
//!
//! Reading and writing the one-file-per-question directory is plain
//! I/O and stays with the caller; what a record holds, how the bank
//! answers lookups and how a listing is rendered is decided here.

use vstd::prelude::*;
use vstd::string::StringExecFns;

use crate::response::json_escape;
use crate::response::escape_json;
use crate::store::KeyedList;

verus! {

/// Per-language starter templates of a question.
#[derive(Clone, Debug)]
pub struct Templates {
    pub cpp: Option<String>,
    pub python: Option<String>,
    pub rust: Option<String>,
}

/// Mathematical value of a [`Templates`].
pub struct TemplatesView {
    pub cpp: Option<Seq<char>>,
    pub python: Option<Seq<char>>,
    pub rust: Option<Seq<char>>,
}

impl View for Templates {
    type V = TemplatesView;

    open spec fn view(&self) -> TemplatesView {
        TemplatesView {
            cpp: match self.cpp {
                Some(s) => Some(s@),
                None => None,
            },
            python: match self.python {
                Some(s) => Some(s@),
                None => None,
            },
            rust: match self.rust {
                Some(s) => Some(s@),
                None => None,
            },
        }
    }
}

/// One problem record, persisted as one document per identifier.
#[derive(Clone, Debug)]
pub struct Question {
    pub id: String,
    pub title: String,
    pub description: String,
    pub templates: Option<Templates>,
}

/// Mathematical value of a [`Question`].
pub struct QuestionView {
    pub id: Seq<char>,
    pub title: Seq<char>,
    pub description: Seq<char>,
    pub templates: Option<TemplatesView>,
}

impl View for Question {
    type V = QuestionView;

    open spec fn view(&self) -> QuestionView {
        QuestionView {
            id: self.id@,
            title: self.title@,
            description: self.description@,
            templates: match self.templates {
                Some(t) => Some(t@),
                None => None,
            },
        }
    }
}

impl Question {
    /// A record without templates.
    pub fn new(id: String, title: String, description: String) -> (q: Question)
        ensures
            q@.id == id@,
            q@.title == title@,
            q@.description == description@,
            q@.templates is None,
    {
        Question { id, title, description, templates: None }
    }

    /// The same record with its templates attached.
    pub fn with_templates(self, templates: Templates) -> (q: Question)
        ensures
            q@.id == self@.id,
            q@.title == self@.title,
            q@.description == self@.description,
            q@.templates == Some(templates@),
    {
        Question { templates: Some(templates), ..self }
    }
}

/// The in-memory question bank.
pub struct QuestionStore {
    inner: KeyedList<Question>,
}

impl View for QuestionStore {
    type V = Map<Seq<char>, QuestionView>;

    closed spec fn view(&self) -> Map<Seq<char>, QuestionView> {
        self.inner@
    }
}

impl QuestionStore {
    /// Internal invariant of the underlying store.
    pub closed spec fn wf(&self) -> bool {
        self.inner.wf()
    }

    /// An empty bank.
    pub fn new() -> (r: QuestionStore)
        ensures
            r.wf(),
            r@ == Map::<Seq<char>, QuestionView>::empty(),
    {
        QuestionStore { inner: KeyedList::new() }
    }

    /// Stores a record under its own identifier, replacing any earlier
    /// record of that identifier — loading one persisted question and
    /// saving a new one are both this step.
    pub fn save(&mut self, q: Question)
        requires
            old(self).wf(),
        ensures
            final(self).wf(),
            final(self)@ == old(self)@.insert(q@.id, q@),
    {
        let key = q.id.clone();
        self.inner.upsert(key, q);
    }

    /// Looks one record up; `None` exactly when the identifier is
    /// unknown, which the read path answers as not-found.
    pub fn get(&self, id: &String) -> (r: Option<&Question>)
        requires
            self.wf(),
        ensures
            match r {
                Some(q) => self@.contains_key(id@) && q@ == self@[id@],
                None => !self@.contains_key(id@),
            },
    {
        self.inner.get(id)
    }

    /// The identifiers of all stored questions: each resolves, none is
    /// repeated, and none is missing.
    pub fn ids(&self) -> (r: Vec<String>)
        requires
            self.wf(),
        ensures
            forall|i: int| 0 <= i < r@.len() ==> self@.contains_key(#[trigger] r@[i]@),
            forall|i: int, j: int| 0 <= i < j < r@.len() ==> r@[i]@ != r@[j]@,
            forall|k: Seq<char>| self@.contains_key(k)
                ==> exists|i: int| 0 <= i < r@.len() && #[trigger] r@[i]@ == k,
    {
        self.inner.keys()
    }
}

/// The listing entry of one question: its identifier, title and
/// description — templates are left out of the listing.
pub open spec fn summary_of(q: QuestionView) -> Seq<char> {
    "{\"id\":\""@ + json_escape(q.id) + "\",\"title\":\""@ + json_escape(q.title)
        + "\",\"description\":\""@ + json_escape(q.description) + "\"}"@
}

/// Renders one listing entry.
pub fn summary_body(q: &Question) -> (r: String)
    ensures
        r@ == summary_of(q@),
{
    let mut s = String::from_str("{\"id\":\"");
    let esc_id = escape_json(q.id.as_str());
    s.append(esc_id.as_str());
    s.append("\",\"title\":\"");
    let esc_title = escape_json(q.title.as_str());
    s.append(esc_title.as_str());
    s.append("\",\"description\":\"");
    let esc_desc = escape_json(q.description.as_str());
    s.append(esc_desc.as_str());
    s.append("\"}");
    s
}

/// The comma-separated join of already-rendered parts.
pub open spec fn joined(parts: Seq<Seq<char>>) -> Seq<char>
    decreases parts.len(),
{
    if parts.len() == 0 {
        Seq::empty()
    } else if parts.len() == 1 {
        parts[0]
    } else {
        joined(parts.drop_last()) + ","@ + parts.last()
    }
}

/// A JSON array of already-rendered element bodies.
pub fn json_array(parts: &Vec<String>) -> (r: String)
    ensures
        r@ == "["@ + joined(parts@.map_values(|p: String| p@)) + "]"@,
{
    let ghost views = parts@.map_values(|p: String| p@);
    let mut s = String::from_str("[");
    let n: usize = parts.len();
    let mut i: usize = 0;
    while i < n
        invariant
            n == parts@.len(),
            i <= n,
            views == parts@.map_values(|p: String| p@),
            s@ == "["@ + joined(views.subrange(0, i as int)),
        decreases n - i,
    {
        if i > 0 {
            s.append(",");
        }
        s.append(parts[i].as_str());
        proof {
            let pre = views.subrange(0, i as int);
            let ext = views.subrange(0, i as int + 1);
            assert(ext.drop_last() =~= pre);
            assert(ext.last() == views[i as int]);
            if i == 0 {
                assert(ext =~= seq![views[0]]);
            }
        }
        i += 1;
    }
    s.append("]");
    proof {
        assert(views.subrange(0, n as int) =~= views);
    }
    s
}

/// The filesystem path a question record persists at: one JSON document
/// per identifier under the fixed questions directory.
pub fn question_path(id: &String) -> (r: String)
    ensures
        r@ == "questions/"@ + id@ + ".json"@,
{
    let mut s = String::from_str("questions/");
    s.append(id.as_str());
    s.append(".json");
    s
}

} // verus!
