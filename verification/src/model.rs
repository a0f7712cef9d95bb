//! Records returned by the log endpoints.

use vstd::prelude::*;

verus! {

/// One usage-log entry.
#[derive(Clone, Debug)]
pub struct LogItem {
    pub id: i64,
    pub created_at: i64,
    pub log_type: i32,
    pub content: String,
    pub token_name: String,
    pub model_name: String,
    pub quota: i64,
    pub prompt_tokens: i64,
    pub completion_tokens: i64,
    pub use_time: i64,
    pub is_stream: bool,
    pub group: String,
    pub request_id: String,
    pub other: String,
}

/// One page of usage logs.
#[derive(Clone, Debug)]
pub struct LogsPage {
    pub page: i32,
    pub page_size: i32,
    pub total: i64,
    pub items: Vec<LogItem>,
}

/// Usage summed over one model.
#[derive(Clone, Debug)]
pub struct LogStatItem {
    pub model_name: String,
    pub quota: i64,
    pub count: i64,
    pub prompt_tokens: i64,
    pub completion_tokens: i64,
}

} // verus!
