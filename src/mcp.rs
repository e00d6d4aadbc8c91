//! The tool server's side of the engine: which failures are worth retrying,
//! how long to wait between attempts, and how a tool's response becomes the
//! text the conversation records.
use vstd::prelude::*;
use crate::text::{contains_text, joined, occurs_in, same_text};

verus! {

/// How many times an operation is attempted.
pub const MAX_RETRIES: u32 = 3;

/// The wait before the first retry, in milliseconds; it doubles for each later one.
pub const BASE_DELAY_MS: u64 = 1000;

/// What the HTTP layer reported about a failed request.
#[derive(Debug, Clone)]
pub struct HttpFailure {
    /// The connection could not be made.
    pub connect: bool,
    /// The request timed out.
    pub timeout: bool,
    /// The request could not be sent.
    pub request: bool,
    pub message: String,
}

/// A failure talking to the tool server.
#[derive(Debug, Clone)]
pub enum McpError {
    Http(HttpFailure),
    Serialization(String),
    Connection(String),
    Protocol(String),
    Initialization(String),
    Other(String),
}

/// Whether an attempt that failed with `e` is worth repeating: a failed
/// connection, a timeout or an unsent request; a lost connection; or a
/// protocol error that reports status 404, 500, 502 or 503.
pub open spec fn retryable(e: McpError) -> bool {
    match e {
        McpError::Http(h) => h.connect || h.timeout || h.request,
        McpError::Connection(_) => true,
        McpError::Protocol(m) => occurs_in(m@, "404"@) || occurs_in(m@, "503"@) || occurs_in(
            m@,
            "502"@,
        ) || occurs_in(m@, "500"@),
        _ => false,
    }
}

impl McpError {
    /// Whether this failure is worth retrying.
    pub fn is_retryable_error(&self) -> (r: bool)
        ensures
            r == retryable(*self),
    {
        match self {
            McpError::Http(h) => h.connect || h.timeout || h.request,
            McpError::Connection(_) => true,
            McpError::Protocol(m) => {
                let s = m.as_str();
                contains_text(s, "404") || contains_text(s, "503") || contains_text(s, "502")
                    || contains_text(s, "500")
            },
            _ => false,
        }
    }

    /// The failure described for people.
    pub fn describe(&self) -> (r: String)
        ensures
            r@ == describe_error(*self),
    {
        match self {
            McpError::Http(h) => joined("HTTP request error: ", h.message.as_str()),
            McpError::Serialization(m) => joined("Serialization error: ", m.as_str()),
            McpError::Connection(m) => joined("Connection failed: ", m.as_str()),
            McpError::Protocol(m) => joined("Protocol error: ", m.as_str()),
            McpError::Initialization(m) => joined("Initialization failed: ", m.as_str()),
            McpError::Other(m) => joined("Other error: ", m.as_str()),
        }
    }
}

/// A failure's description.
pub open spec fn describe_error(e: McpError) -> Seq<char> {
    match e {
        McpError::Http(h) => "HTTP request error: "@ + h.message@,
        McpError::Serialization(m) => "Serialization error: "@ + m@,
        McpError::Connection(m) => "Connection failed: "@ + m@,
        McpError::Protocol(m) => "Protocol error: "@ + m@,
        McpError::Initialization(m) => "Initialization failed: "@ + m@,
        McpError::Other(m) => "Other error: "@ + m@,
    }
}

/// `2` to the power `n`.
pub open spec fn pow2(n: nat) -> nat
    decreases n,
{
    if n == 0 {
        1
    } else {
        2 * pow2((n - 1) as nat)
    }
}

/// What to do after a failed attempt.
#[derive(Debug, Clone, Copy, PartialEq, Eq, Structural)]
pub enum RetryDecision {
    /// Wait this many milliseconds, then try again.
    RetryAfter(u64),
    /// Stop and report the failure.
    GiveUp,
}

/// What follows a failure of attempt `attempt` (counted from zero): a
/// failure not worth retrying, or one on the last attempt, is reported;
/// otherwise the next attempt follows after `BASE_DELAY_MS * 2^attempt`.
pub open spec fn retry_step(attempt: nat, e: McpError) -> RetryDecision {
    if !retryable(e) || attempt + 1 >= MAX_RETRIES {
        RetryDecision::GiveUp
    } else {
        RetryDecision::RetryAfter((BASE_DELAY_MS * pow2(attempt)) as u64)
    }
}

/// Decides what follows a failure of attempt `attempt`.
pub fn retry_decision(attempt: u32, error: &McpError) -> (r: RetryDecision)
    requires
        attempt < MAX_RETRIES,
    ensures
        r == retry_step(attempt as nat, *error),
{
    if !error.is_retryable_error() || attempt + 1 >= MAX_RETRIES {
        return RetryDecision::GiveUp;
    }
    let mut delay: u64 = BASE_DELAY_MS;
    let mut k: u32 = 0;
    while k < attempt
        invariant
            k <= attempt,
            attempt < MAX_RETRIES,
            delay == BASE_DELAY_MS * pow2(k as nat),
        decreases attempt - k,
    {
        proof {
            assert(pow2((k + 1) as nat) == 2 * pow2(k as nat));
            assert(pow2(k as nat) <= 2) by {
                assert(pow2(0) == 1);
                assert(pow2(1) == 2);
            }
        }
        delay = delay * 2;
        k = k + 1;
    }
    RetryDecision::RetryAfter(delay)
}

/// One content item of a tool's response.
#[derive(Debug, Clone)]
pub struct McpContent {
    pub content_type: String,
    pub text: Option<String>,
    pub data: Option<String>,
}

/// A tool's response.
#[derive(Debug, Clone)]
pub struct McpToolResponse {
    pub content: Vec<McpContent>,
    pub is_error: Option<bool>,
}

/// `parts` joined with `sep` between neighbours.
pub open spec fn join(parts: Seq<Seq<char>>, sep: Seq<char>) -> Seq<char>
    decreases parts.len(),
{
    if parts.len() == 0 {
        Seq::empty()
    } else if parts.len() == 1 {
        parts[0]
    } else {
        join(parts.drop_last(), sep) + sep + parts.last()
    }
}

/// The texts that content items carry, in order.
pub open spec fn texts_of(cs: Seq<McpContent>) -> Seq<Seq<char>>
    decreases cs.len(),
{
    if cs.len() == 0 {
        Seq::empty()
    } else {
        let rest = texts_of(cs.drop_last());
        match cs.last().text {
            Some(t) => rest.push(t@),
            None => rest,
        }
    }
}

/// Appends `part` to `acc`, with `sep` first where `acc` already holds parts.
fn push_part(acc: &mut String, first: bool, sep: &str, part: &str)
    ensures
        first ==> final(acc)@ == old(acc)@ + part@,
        !first ==> final(acc)@ == old(acc)@ + sep@ + part@,
{
    if !first {
        acc.append(sep);
    }
    acc.append(part);
}

/// The texts of a tool's response, one per line: what the conversation
/// records as the tool's answer.
pub fn tool_response_text(response: &McpToolResponse) -> (r: String)
    ensures
        r@ == join(texts_of(response.content@), "\n"@),
{
    let mut r = String::new();
    let mut i: usize = 0;
    let mut any = false;
    while i < response.content.len()
        invariant
            i <= response.content@.len(),
            r@ == join(texts_of(response.content@.take(i as int)), "\n"@),
            any == (texts_of(response.content@.take(i as int)).len() > 0),
        decreases response.content@.len() - i,
    {
        let ghost before = texts_of(response.content@.take(i as int));
        proof {
            assert(response.content@.take(i + 1).drop_last() =~= response.content@.take(i as int));
        }
        match &response.content[i].text {
            Some(t) => {
                push_part(&mut r, !any, "\n", t.as_str());
                proof {
                    let after = before.push(t@);
                    assert(after.drop_last() =~= before);
                }
                any = true;
            },
            None => {},
        }
        i = i + 1;
    }
    proof {
        assert(response.content@.take(i as int) =~= response.content@);
    }
    r
}

/// The text of the first content item of type `text`, where it has one.
pub open spec fn first_text_message(cs: Seq<McpContent>) -> Option<Seq<char>>
    decreases cs.len(),
{
    if cs.len() == 0 {
        None
    } else if cs[0].content_type@ == "text"@ {
        match cs[0].text {
            Some(t) => Some(t@),
            None => None,
        }
    } else {
        first_text_message(cs.drop_first())
    }
}

/// The message of a response that reports a tool failure.
pub open spec fn failure_message(cs: Seq<McpContent>) -> Seq<char> {
    "Tool execution error: "@ + match first_text_message(cs) {
        Some(t) => t,
        None => "Unknown error"@,
    }
}

/// A response that reports a tool failure becomes a protocol error whose
/// message is the text of its first text item; any other response stands.
pub fn check_tool_response(response: McpToolResponse) -> (r: Result<McpToolResponse, McpError>)
    ensures
        response.is_error == Some(true) ==> (r matches Err(McpError::Protocol(m)) && m@
            == failure_message(response.content@)),
        response.is_error != Some(true) ==> (r matches Ok(x) && x == response),
{
    let failed = match response.is_error {
        Some(b) => b,
        None => false,
    };
    if !failed {
        return Ok(response);
    }
    let mut i: usize = 0;
    let mut found: Option<String> = None;
    let mut done = false;
    assert(response.content@.skip(0) =~= response.content@);
    while i < response.content.len() && !done
        invariant
            i <= response.content@.len(),
            !done ==> found is None,
            !done ==> first_text_message(response.content@) == first_text_message(
                response.content@.skip(i as int),
            ),
            done ==> first_text_message(response.content@) == match found {
                Some(t) => Some(t@),
                None => None::<Seq<char>>,
            },
        decreases response.content@.len() - i,
    {
        let c = &response.content[i];
        proof {
            assert(response.content@.skip(i as int)[0] == response.content@[i as int]);
            assert(response.content@.skip(i as int).drop_first() =~= response.content@.skip(
                i + 1,
            ));
        }
        if same_text(c.content_type.as_str(), "text") {
            found = match &c.text {
                Some(t) => Some(t.clone()),
                None => None,
            };
            done = true;
        }
        i = i + 1;
    }
    if !done {
        assert(response.content@.skip(i as int).len() == 0);
    }
    let msg = match found {
        Some(t) => joined("Tool execution error: ", t.as_str()),
        None => joined("Tool execution error: ", "Unknown error"),
    };
    Err(McpError::Protocol(msg))
}

/// Formats tool results for a chat completion.
pub struct ToolCallHelper;

/// The line that reports result `result` of call `id`.
pub open spec fn result_line(id: Seq<char>, result: Seq<char>) -> Seq<char> {
    "Tool "@ + id + " result: "@ + result
}

/// The lines that report each result, in order.
pub open spec fn result_lines(rs: Seq<(String, String)>) -> Seq<Seq<char>> {
    rs.map_values(|p: (String, String)| result_line(p.0@, p.1@))
}

impl ToolCallHelper {
    /// One line per result, with a blank line between neighbours; empty
    /// where there is no result.
    pub fn format_tool_results(tool_results: &[(String, String)]) -> (r: String)
        ensures
            r@ == join(result_lines(tool_results@), "\n\n"@),
    {
        let mut r = String::new();
        let mut i: usize = 0;
        while i < tool_results.len()
            invariant
                i <= tool_results@.len(),
                r@ == join(result_lines(tool_results@.take(i as int)), "\n\n"@),
            decreases tool_results@.len() - i,
        {
            let (id, result) = &tool_results[i];
            let line = joined("Tool ", id.as_str());
            let line = joined(line.as_str(), " result: ");
            let line = joined(line.as_str(), result.as_str());
            proof {
                assert(result_lines(tool_results@.take(i + 1)).drop_last() =~= result_lines(
                    tool_results@.take(i as int),
                ));
                assert(result_lines(tool_results@.take(i + 1)).last() == line@);
            }
            push_part(&mut r, i == 0, "\n\n", line.as_str());
            i = i + 1;
        }
        proof {
            assert(tool_results@.take(i as int) =~= tool_results@);
        }
        r
    }
}

} // verus!
