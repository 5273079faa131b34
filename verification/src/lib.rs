//! Core of a small code-judge service: the asynchronous job lifecycle.
//!
//! A submission is registered under a fresh identifier, driven through
//! write / compile / run stages by a caller-run loop, and its terminal
//! outcome is recorded exactly once in a registry that concurrent
//! readers poll.

pub mod orchestrator;
pub mod question;
pub mod registry;
pub mod response;
pub mod store;

pub use question::Question;
pub use question::QuestionStore;
pub use question::QuestionView;
pub use question::Templates;
pub use question::TemplatesView;
pub use question::json_array;
pub use question::question_path;
pub use question::summary_body;

pub use orchestrator::Advance;
pub use orchestrator::AdvanceView;
pub use orchestrator::Compiler;
pub use orchestrator::Execute;
pub use orchestrator::Stage;
pub use orchestrator::SubmitReq;
pub use orchestrator::advance;
pub use orchestrator::binary_path;
pub use orchestrator::finish_job;
pub use orchestrator::register_submission;
pub use orchestrator::run_outcome;
pub use orchestrator::source_path;
pub use response::QueryResponse;
pub use response::QueryView;
pub use response::done_body;
pub use response::escape_json;
pub use response::not_found_body;
pub use response::query;
pub use response::render_response;
pub use response::running_body;
pub use registry::TaskStatus;
pub use registry::StatusView;
pub use registry::TaskRegistry;
pub use store::KeyedList;
