//! The shapes in which a session's progress reaches HTTP clients, and the
//! conversions from the engine's entries.
use vstd::prelude::*;
use crate::entry;
use crate::models::{DailyUsage, ModelUsage, UserUsageStats};

verus! {

/// What kind of progress a streamed response reports.
#[derive(Debug, Clone, Copy, PartialEq, Eq, Structural)]
pub enum StreamingEntryType {
    Content,
    ToolCallStart,
    ToolCallResult,
    ToolCallError,
}

/// Where a reported tool invocation stands.
#[derive(Debug, Clone, Copy, PartialEq, Eq, Structural)]
pub enum ToolCallStatus {
    Starting,
    Executing,
    Success,
    Error,
}

/// A reported tool invocation.
#[derive(Debug, Clone)]
pub struct ToolCallEntry {
    pub tool_name: String,
    pub tool_id: String,
    pub arguments: Option<String>,
    pub result: Option<String>,
    pub status: ToolCallStatus,
}

/// One event of a client's stream.
#[derive(Debug, Clone)]
pub struct StreamingResponse {
    pub content: String,
    pub is_complete: bool,
    pub error: Option<String>,
    pub entry_type: StreamingEntryType,
    pub tool_call: Option<ToolCallEntry>,
}

/// The client-facing kind that corresponds to an entry's kind.
pub open spec fn entry_type_spec(t: entry::StreamingEntryType) -> StreamingEntryType {
    match t {
        entry::StreamingEntryType::Content => StreamingEntryType::Content,
        entry::StreamingEntryType::ToolCallStart => StreamingEntryType::ToolCallStart,
        entry::StreamingEntryType::ToolCallResult => StreamingEntryType::ToolCallResult,
        entry::StreamingEntryType::ToolCallError => StreamingEntryType::ToolCallError,
    }
}

/// The client-facing status that corresponds to a tool call's status.
pub open spec fn status_spec(s: entry::ToolCallStatus) -> ToolCallStatus {
    match s {
        entry::ToolCallStatus::Starting => ToolCallStatus::Starting,
        entry::ToolCallStatus::Executing => ToolCallStatus::Executing,
        entry::ToolCallStatus::Success => ToolCallStatus::Success,
        entry::ToolCallStatus::Error => ToolCallStatus::Error,
    }
}

/// The same tool invocation, reported to clients.
pub open spec fn reports_call(r: ToolCallEntry, e: entry::ToolCallEntry) -> bool {
    &&& r.tool_name == e.tool_name
    &&& r.tool_id == e.tool_id
    &&& r.arguments == e.arguments
    &&& r.result == e.result
    &&& r.status == status_spec(e.status)
}

pub fn convert_entry_type(entry_type: entry::StreamingEntryType) -> (r: StreamingEntryType)
    ensures
        r == entry_type_spec(entry_type),
{
    match entry_type {
        entry::StreamingEntryType::Content => StreamingEntryType::Content,
        entry::StreamingEntryType::ToolCallStart => StreamingEntryType::ToolCallStart,
        entry::StreamingEntryType::ToolCallResult => StreamingEntryType::ToolCallResult,
        entry::StreamingEntryType::ToolCallError => StreamingEntryType::ToolCallError,
    }
}

pub fn convert_tool_call_status(status: entry::ToolCallStatus) -> (r: ToolCallStatus)
    ensures
        r == status_spec(status),
{
    match status {
        entry::ToolCallStatus::Starting => ToolCallStatus::Starting,
        entry::ToolCallStatus::Executing => ToolCallStatus::Executing,
        entry::ToolCallStatus::Success => ToolCallStatus::Success,
        entry::ToolCallStatus::Error => ToolCallStatus::Error,
    }
}

pub fn convert_tool_call_entry(entry: entry::ToolCallEntry) -> (r: ToolCallEntry)
    ensures
        reports_call(r, entry),
{
    ToolCallEntry {
        tool_name: entry.tool_name,
        tool_id: entry.tool_id,
        arguments: entry.arguments,
        result: entry.result,
        status: convert_tool_call_status(entry.status),
    }
}

impl StreamingResponse {
    /// The event that reports one entry of a running stream.
    pub fn from_entry(entry: entry::StreamingEntry) -> (r: Self)
        ensures
            r.content == entry.content,
            !r.is_complete,
            r.error is None,
            r.entry_type == entry_type_spec(entry.entry_type),
            match entry.tool_call {
                Some(t) => r.tool_call matches Some(x) && reports_call(x, t),
                None => r.tool_call is None,
            },
    {
        StreamingResponse {
            content: entry.content,
            is_complete: false,
            error: None,
            entry_type: convert_entry_type(entry.entry_type),
            tool_call: match entry.tool_call {
                Some(t) => Some(convert_tool_call_entry(t)),
                None => None,
            },
        }
    }

    /// The last event of a stream whose session failed with `error`.
    pub fn from_failure(error: String) -> (r: Self)
        ensures
            r.content@.len() == 0,
            r.is_complete,
            r.error == Some(error),
            r.entry_type == StreamingEntryType::ToolCallError,
            r.tool_call is None,
    {
        StreamingResponse {
            content: String::new(),
            is_complete: true,
            error: Some(error),
            entry_type: StreamingEntryType::ToolCallError,
            tool_call: None,
        }
    }
}

/// A message that a user sends to a workshop chat.
#[derive(Debug, Clone)]
pub struct WorkshopChatInput {
    pub message: String,
    pub model: Option<String>,
}

/// A user's token usage: totals, per model and per day.
#[derive(Debug, Clone)]
pub struct UserUsageResponse {
    pub stats: UserUsageStats,
    pub by_model: Vec<ModelUsage>,
    pub daily_usage: Vec<DailyUsage>,
}

/// A model that the workshop can use.
#[derive(Debug, Clone)]
pub struct AvailableModel {
    pub id: String,
    pub name: String,
    pub provider: String,
    pub is_default: bool,
}

/// The models the workshop can use, and the one it uses by default.
#[derive(Debug, Clone)]
pub struct AvailableModelsResponse {
    pub models: Vec<AvailableModel>,
    pub default_model: String,
}

} // verus!
