//! The request and result records of code execution.
use vstd::prelude::*;

verus! {

/// A request to run `code` written in `language`, with an optional time limit.
#[derive(Clone, Debug)]
pub struct ExecutionRequest {
    pub language: String,
    pub code: String,
    pub timeout_ms: Option<u64>,
}

/// The record of one job: its outcome, its output and when it was recorded.
#[derive(Clone, Debug)]
pub struct ExecutionResult {
    pub id: String,
    pub status: String,
    pub stdout: String,
    pub stderr: String,
    pub exit_code: Option<i32>,
    pub created_at: Option<i64>,
}

/// A job record as values: what its fields hold.
pub ghost struct ResultView {
    pub id: Seq<char>,
    pub status: Seq<char>,
    pub stdout: Seq<char>,
    pub stderr: Seq<char>,
    pub exit_code: Option<i32>,
    pub created_at: Option<i64>,
}

impl View for ExecutionResult {
    type V = ResultView;

    open spec fn view(&self) -> ResultView {
        ResultView {
            id: self.id@,
            status: self.status@,
            stdout: self.stdout@,
            stderr: self.stderr@,
            exit_code: self.exit_code,
            created_at: self.created_at,
        }
    }
}

/// A stored entry as values: `None` while the job runs.
pub open spec fn entry_view(v: Option<ExecutionResult>) -> Option<ResultView> {
    match v {
        None => None,
        Some(r) => Some(r@),
    }
}

} // verus!
