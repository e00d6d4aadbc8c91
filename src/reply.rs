//! Decoding the tool server's JSON-RPC reply to a tool call: the reply (or
//! the first of a batch) either reports an error, or holds a result whose
//! content items and failure flag make the tool's response.
use vstd::prelude::*;
use crate::args::{object_members, JsonObject};
use crate::mcp::{check_tool_response, failure_message, McpContent, McpError, McpToolResponse};
use crate::text::joined;

verus! {

/// The elements of `v` where it is a JSON array.
pub uninterp spec fn array_items(v: serde_json::Value) -> Option<Seq<serde_json::Value>>;

/// The value of member `key` of an object, where it has one.
pub uninterp spec fn member_value(
    m: serde_json::Map<String, serde_json::Value>,
    key: Seq<char>,
) -> Option<serde_json::Value>;

/// The text of `v` where it is a JSON string.
pub uninterp spec fn string_value(v: serde_json::Value) -> Option<Seq<char>>;

/// The boolean `v` is, where it is one.
pub uninterp spec fn bool_value(v: serde_json::Value) -> Option<bool>;

/// Tells a JSON array apart from the other kinds of value.
#[verifier::external_body]
fn items_ref(v: &serde_json::Value) -> (r: Option<&Vec<serde_json::Value>>)
    ensures
        r matches Some(xs) ==> array_items(*v) == Some(xs@),
        r is None ==> array_items(*v) is None,
{
    match v {
        serde_json::Value::Array(xs) => Some(xs),
        _ => None,
    }
}

/// Tells a JSON object apart from the other kinds of value.
#[verifier::external_body]
fn object_ref(v: &serde_json::Value) -> (r: Option<&JsonObject>)
    ensures
        r matches Some(m) ==> object_members(*v) == Some(*m),
        r is None ==> object_members(*v) is None,
{
    match v {
        serde_json::Value::Object(m) => Some(m),
        _ => None,
    }
}

/// Relies on `serde_json::Map::get`: the value of member `key`.
#[verifier::external_body]
fn member_ref<'a>(m: &'a JsonObject, key: &str) -> (r: Option<&'a serde_json::Value>)
    ensures
        r matches Some(x) ==> member_value(*m, key@) == Some(*x),
        r is None ==> member_value(*m, key@) is None,
{
    m.get(key)
}

/// Tells a JSON string apart from the other kinds of value.
#[verifier::external_body]
fn text_of(v: &serde_json::Value) -> (r: Option<String>)
    ensures
        r matches Some(s) ==> string_value(*v) == Some(s@),
        r is None ==> string_value(*v) is None,
{
    match v {
        serde_json::Value::String(s) => Some(s.clone()),
        _ => None,
    }
}

/// Tells a JSON boolean apart from the other kinds of value.
#[verifier::external_body]
fn flag_of(v: &serde_json::Value) -> (r: Option<bool>)
    ensures
        r == bool_value(*v),
{
    match v {
        serde_json::Value::Bool(b) => Some(*b),
        _ => None,
    }
}

/// Relies on `serde_json::to_string_pretty`: the value as indented JSON
/// text, empty where it cannot be written.
#[verifier::external_body]
fn pretty_text(v: &serde_json::Value) -> String {
    serde_json::to_string_pretty(v).unwrap_or_default()
}

/// Member `key` of `v`, where `v` is an object that has it.
pub open spec fn field(v: serde_json::Value, key: Seq<char>) -> Option<serde_json::Value> {
    match object_members(v) {
        Some(m) => member_value(m, key),
        None => None,
    }
}

/// The text of member `key` of `v`, where it is a string.
pub open spec fn field_text(v: serde_json::Value, key: Seq<char>) -> Option<Seq<char>> {
    match field(v, key) {
        Some(x) => string_value(x),
        None => None,
    }
}

/// The view of an optional text.
pub open spec fn opt_view(t: Option<String>) -> Option<Seq<char>> {
    match t {
        Some(s) => Some(s@),
        None => None,
    }
}

/// `c` is the content item that `v` describes; its type is `text` where `v`
/// names none.
pub open spec fn content_of(v: serde_json::Value, c: McpContent) -> bool {
    &&& c.content_type@ == match field_text(v, "type"@) {
        Some(t) => t,
        None => "text"@,
    }
    &&& opt_view(c.text) == field_text(v, "text"@)
    &&& opt_view(c.data) == field_text(v, "data"@)
}

/// `r` is the response that the result `res` of a tool call describes: one
/// item per element of its `content` array (none where it has no such
/// array), and its `isError` flag where it is a boolean.
pub open spec fn response_of(res: serde_json::Value, r: McpToolResponse) -> bool {
    let items = match field(res, "content"@) {
        Some(c) => match array_items(c) {
            Some(xs) => xs,
            None => Seq::empty(),
        },
        None => Seq::empty(),
    };
    &&& r.content@.len() == items.len()
    &&& forall|i: int| 0 <= i < items.len() ==> content_of(items[i], #[trigger] r.content@[i])
    &&& r.is_error == match field(res, "isError"@) {
        Some(f) => bool_value(f),
        None => None,
    }
}

/// The reply object of a JSON-RPC answer: the answer itself, or the first
/// element of a batch.
pub open spec fn reply_of(json: serde_json::Value) -> Option<serde_json::Value> {
    match array_items(json) {
        Some(xs) => if xs.len() > 0 {
            Some(xs[0])
        } else {
            None
        },
        None => Some(json),
    }
}

/// A member of the reply object.
pub open spec fn reply_field(json: serde_json::Value, key: Seq<char>) -> Option<serde_json::Value> {
    match reply_of(json) {
        Some(v) => field(v, key),
        None => None,
    }
}

/// `r` is what result `res` decodes to: the response it describes, or, where
/// that response reports a tool failure, the protocol error that says so.
pub open spec fn result_decoded(res: serde_json::Value, r: Result<McpToolResponse, McpError>) -> bool {
    match r {
        Ok(x) => response_of(res, x) && x.is_error != Some(true),
        Err(McpError::Protocol(m)) => exists|x: McpToolResponse|
            response_of(res, x) && x.is_error == Some(true) && m@ == failure_message(x.content@),
        Err(_) => false,
    }
}

/// `m` starts with `prefix`.
pub open spec fn starts_with(m: Seq<char>, prefix: Seq<char>) -> bool {
    m.len() >= prefix.len() && m.take(prefix.len() as int) == prefix
}

/// The response described by content items `items`.
fn contents_of(items: &Vec<serde_json::Value>) -> (r: Vec<McpContent>)
    ensures
        r@.len() == items@.len(),
        forall|i: int| 0 <= i < items@.len() ==> content_of(items@[i], #[trigger] r@[i]),
{
    let mut r: Vec<McpContent> = Vec::new();
    let mut i: usize = 0;
    while i < items.len()
        invariant
            i <= items@.len(),
            r@.len() == i,
            forall|j: int| 0 <= j < i ==> content_of(items@[j], #[trigger] r@[j]),
        decreases items@.len() - i,
    {
        let v = &items[i];
        let (kind, text, data) = match object_ref(v) {
            Some(m) => {
                let kind = match member_ref(m, "type") {
                    Some(x) => text_of(x),
                    None => None,
                };
                let text = match member_ref(m, "text") {
                    Some(x) => text_of(x),
                    None => None,
                };
                let data = match member_ref(m, "data") {
                    Some(x) => text_of(x),
                    None => None,
                };
                (kind, text, data)
            },
            None => (None, None, None),
        };
        let content_type = match kind {
            Some(t) => t,
            None => String::from_str("text"),
        };
        proof {
            reveal_strlit("text");
        }
        r.push(McpContent { content_type, text, data });
        i = i + 1;
    }
    r
}

/// Decodes the reply to a tool call: an error member becomes a protocol
/// error; a reply without a result is reported whole; a result becomes the
/// tool's response, which stands unless it reports a tool failure.
pub fn decode_tool_reply(json: &serde_json::Value) -> (r: Result<McpToolResponse, McpError>)
    ensures
        reply_field(*json, "error"@) is Some ==> (r matches Err(McpError::Protocol(m))
            && starts_with(m@, "Tool call error: "@)),
        reply_field(*json, "error"@) is None && reply_field(*json, "result"@) is None ==> (
        r matches Err(McpError::Protocol(m)) && starts_with(m@, "Unexpected response format: "@)),
        reply_field(*json, "error"@) is None && reply_field(*json, "result"@) is Some
            ==> result_decoded(reply_field(*json, "result"@).unwrap(), r),
{
    let reply: Option<&serde_json::Value> = match items_ref(json) {
        Some(xs) => if xs.len() > 0 {
            Some(&xs[0])
        } else {
            None
        },
        None => Some(json),
    };
    let obj: Option<&JsonObject> = match reply {
        Some(v) => object_ref(v),
        None => None,
    };
    let (error, result) = match obj {
        Some(m) => (member_ref(m, "error"), member_ref(m, "result")),
        None => (None, None),
    };
    proof {
        reveal_strlit("error");
        reveal_strlit("result");
        reveal_strlit("Tool call error: ");
        reveal_strlit("Unexpected response format: ");
    }
    match error {
        Some(e) => {
            let detail = e.to_string();
            let m = joined("Tool call error: ", detail.as_str());
            assert(m@.take("Tool call error: "@.len() as int) =~= "Tool call error: "@);
            return Err(McpError::Protocol(m));
        },
        None => {},
    }
    match result {
        None => {
            let whole = pretty_text(json);
            let m = joined("Unexpected response format: ", whole.as_str());
            assert(m@.take("Unexpected response format: "@.len() as int)
                =~= "Unexpected response format: "@);
            Err(McpError::Protocol(m))
        },
        Some(res) => {
            let res_obj = object_ref(res);
            let content = match res_obj {
                Some(m) => match member_ref(m, "content") {
                    Some(c) => match items_ref(c) {
                        Some(xs) => contents_of(xs),
                        None => Vec::new(),
                    },
                    None => Vec::new(),
                },
                None => Vec::new(),
            };
            let is_error = match res_obj {
                Some(m) => match member_ref(m, "isError") {
                    Some(f) => flag_of(f),
                    None => None,
                },
                None => None,
            };
            proof {
                reveal_strlit("content");
                reveal_strlit("isError");
            }
            let response = McpToolResponse { content, is_error };
            assert(response_of(*res, response));
            check_tool_response(response)
        },
    }
}

} // verus!
