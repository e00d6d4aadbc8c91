//! The progress entries that a completion session produces.
use vstd::prelude::*;

verus! {

/// What kind of progress an entry reports.
#[derive(Debug, Clone, Copy, PartialEq, Eq, Structural)]
pub enum StreamingEntryType {
    Content,
    ToolCallStart,
    ToolCallResult,
    ToolCallError,
}

/// Where a tool invocation stands.
#[derive(Debug, Clone, Copy, PartialEq, Eq, Structural)]
pub enum ToolCallStatus {
    Starting,
    Executing,
    Success,
    Error,
}

/// The tool invocation that an entry reports on.
#[derive(Debug, Clone)]
pub struct ToolCallEntry {
    pub tool_name: String,
    pub tool_id: String,
    pub arguments: Option<String>,
    pub result: Option<String>,
    pub status: ToolCallStatus,
}

/// One unit of observable progress of a session.
#[derive(Debug, Clone)]
pub struct StreamingEntry {
    pub content: String,
    pub entry_type: StreamingEntryType,
    pub tool_call: Option<ToolCallEntry>,
}

/// A copy of an optional text.
pub fn copy_opt_text(t: &Option<String>) -> (r: Option<String>)
    ensures
        r == *t,
{
    match t {
        Some(s) => Some(s.clone()),
        None => None,
    }
}

impl ToolCallEntry {
    /// A copy of this entry.
    pub fn duplicate(&self) -> (r: Self)
        ensures
            r == *self,
    {
        ToolCallEntry {
            tool_name: self.tool_name.clone(),
            tool_id: self.tool_id.clone(),
            arguments: copy_opt_text(&self.arguments),
            result: copy_opt_text(&self.result),
            status: self.status,
        }
    }
}

/// An entry that carries a fragment of generated text.
pub open spec fn content_entry(text: Seq<char>, e: StreamingEntry) -> bool {
    &&& e.entry_type == StreamingEntryType::Content
    &&& e.content@ == text
    &&& e.tool_call is None
}

/// An entry that reports on the tool call `id` to `name` with `arguments`.
pub open spec fn tool_entry(
    e: StreamingEntry,
    kind: StreamingEntryType,
    status: ToolCallStatus,
    name: Seq<char>,
    id: Seq<char>,
    arguments: Seq<char>,
    result: Option<Seq<char>>,
) -> bool {
    &&& e.entry_type == kind
    &&& e.content@.len() == 0
    &&& e.tool_call matches Some(t) && {
        &&& t.tool_name@ == name
        &&& t.tool_id@ == id
        &&& t.arguments matches Some(a) && a@ == arguments
        &&& t.status == status
        &&& match result {
            Some(r) => t.result matches Some(x) && x@ == r,
            None => t.result is None,
        }
    }
}

impl StreamingEntry {
    /// A copy of this entry.
    pub fn duplicate(&self) -> (r: Self)
        ensures
            r == *self,
    {
        StreamingEntry {
            content: self.content.clone(),
            entry_type: self.entry_type,
            tool_call: match &self.tool_call {
                Some(t) => Some(t.duplicate()),
                None => None,
            },
        }
    }

    /// An entry carrying a fragment of generated text.
    pub fn content_fragment(text: String) -> (r: Self)
        ensures
            content_entry(text@, r),
    {
        StreamingEntry { content: text, entry_type: StreamingEntryType::Content, tool_call: None }
    }

    /// An entry reporting on a tool call.
    pub fn tool_progress(
        kind: StreamingEntryType,
        status: ToolCallStatus,
        name: String,
        id: String,
        arguments: String,
        result: Option<String>,
    ) -> (r: Self)
        ensures
            tool_entry(
                r,
                kind,
                status,
                name@,
                id@,
                arguments@,
                match result {
                    Some(x) => Some(x@),
                    None => None,
                },
            ),
    {
        StreamingEntry {
            content: String::new(),
            entry_type: kind,
            tool_call: Some(
                ToolCallEntry {
                    tool_name: name,
                    tool_id: id,
                    arguments: Some(arguments),
                    result: result,
                    status: status,
                },
            ),
        }
    }
}

} // verus!
