use vstd::prelude::*;

use crate::tab::Tab;

verus! {

/// Body of `GET /health`.
pub const HEALTH_BODY: &'static str = "Backend is healthy!";

/// Body of `POST /tabs` once the tab is stored.
pub const SAVED_BODY: &'static str = "OK";

/// Reads every row, in whatever order the database returns them.
pub const SELECT_ALL_TABS: &'static str = "SELECT id, title, content, parent_id, created_at FROM tabs";

/// Inserts a tab, or on a taken id sets title, content and parent and leaves
/// `created_at` as stored. Parameters: id, title, content, parent_id,
/// created_at.
pub const UPSERT_TAB: &'static str = "INSERT INTO tabs (id, title, content, parent_id, created_at) VALUES ($1, $2, $3, $4, $5) ON CONFLICT (id) DO UPDATE SET title = $2, content = $3, parent_id = $4";

/// A failure reported by the database client, as text.
#[derive(Debug, PartialEq, Eq)]
pub struct StoreError {
    pub message: String,
}

/// What a list request answers when the database fails.
#[derive(Debug, PartialEq, Eq)]
pub enum ListFailure {
    /// An empty list with a success status: the client cannot tell a failure
    /// from a table with no rows.
    EmptyList,
    /// An error status carrying the failure.
    Report,
}

/// What a save request does when the database fails.
#[derive(Debug, PartialEq, Eq)]
pub enum SaveFailure {
    /// Abandon the request without an answer.
    Abort,
    /// An error status carrying the failure.
    Report,
}

/// How each operation answers a database failure. Reads and writes are
/// chosen apart on purpose: the service has always degraded reads and
/// abandoned writes.
pub struct FailurePolicy {
    pub on_list: ListFailure,
    pub on_save: SaveFailure,
}

impl FailurePolicy {
    /// The service's established behaviour: an empty list when a read fails,
    /// and an abandoned request when a write fails.
    pub fn established() -> (r: FailurePolicy)
        ensures
            r.on_list is EmptyList,
            r.on_save is Abort,
    {
        FailurePolicy { on_list: ListFailure::EmptyList, on_save: SaveFailure::Abort }
    }
}

/// The answer to `GET /tabs`.
#[derive(Debug, PartialEq, Eq)]
pub enum ListReply {
    /// Success status, with these tabs as the body.
    Tabs(Vec<Tab>),
    /// Error status, with the failure.
    Failed(StoreError),
}

/// The answer to `POST /tabs`.
#[derive(Debug, PartialEq, Eq)]
pub enum SaveReply {
    /// Success status, with `SAVED_BODY` as the body.
    Saved,
    /// Error status, with the failure.
    Failed(StoreError),
    /// No answer: the request is abandoned on this failure.
    Abort(StoreError),
}

/// Answers a list request from what the select returned.
pub fn list_reply(policy: &FailurePolicy, fetched: Result<Vec<Tab>, StoreError>) -> (r: ListReply)
    ensures
        fetched is Ok ==> r == ListReply::Tabs(fetched->Ok_0),
        fetched is Err && policy.on_list is EmptyList ==> r is Tabs && r->Tabs_0@.len() == 0,
        fetched is Err && policy.on_list is Report ==> r == ListReply::Failed(fetched->Err_0),
{
    match fetched {
        Ok(tabs) => ListReply::Tabs(tabs),
        Err(e) => match policy.on_list {
            ListFailure::EmptyList => ListReply::Tabs(Vec::new()),
            ListFailure::Report => ListReply::Failed(e),
        },
    }
}

/// Answers a save request from what the upsert returned (the number of rows
/// it touched).
pub fn save_reply(policy: &FailurePolicy, executed: Result<u64, StoreError>) -> (r: SaveReply)
    ensures
        executed is Ok ==> r is Saved,
        executed is Err && policy.on_save is Abort ==> r == SaveReply::Abort(executed->Err_0),
        executed is Err && policy.on_save is Report ==> r == SaveReply::Failed(executed->Err_0),
{
    match executed {
        Ok(_) => SaveReply::Saved,
        Err(e) => match policy.on_save {
            SaveFailure::Abort => SaveReply::Abort(e),
            SaveFailure::Report => SaveReply::Failed(e),
        },
    }
}

} // verus!
