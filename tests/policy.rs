use completion_engine::api::{
    convert_entry_type, convert_tool_call_entry, convert_tool_call_status, StreamingEntryType as ApiType,
    StreamingResponse, ToolCallStatus as ApiStatus,
};
use completion_engine::args::{normalize_members, normalize_tool_arguments, numeric_params, parse_tool_arguments};
use completion_engine::events::first_event_json;
use completion_engine::reply::decode_tool_reply;
use completion_engine::entry::{StreamingEntry, StreamingEntryType, ToolCallEntry, ToolCallStatus};
use completion_engine::mcp::{
    check_tool_response, retry_decision, tool_response_text, HttpFailure, McpContent, McpError, McpToolResponse,
    RetryDecision, ToolCallHelper,
};
use completion_engine::models::{create_discourse_configs, AuthError, PMModule};
use completion_engine::number::parse_i64;
use completion_engine::prompt::is_malformed_tool_call_error;
use completion_engine::text::{contains_text, joined, same_text};
use serde_json::Value;

fn json(text: &str) -> Value {
    serde_json::from_str(text).unwrap()
}

#[test]
fn numeric_text_becomes_integer_for_known_tool() {
    let out = normalize_tool_arguments("get_topic_summary", json("{\"topic_id\":\"42\"}"));
    assert_eq!(out, json("{\"topic_id\":42}"));
    assert!(out["topic_id"].is_i64());
}

#[test]
fn normalization_keeps_unknown_members_and_other_tools() {
    let out = normalize_tool_arguments("search_posts_in_topic", json("{\"limit\":\"5\",\"offset\":\"x\",\"topic_id\":\"-3\",\"query\":\"10\",\"extra\":{\"a\":[1]}}"));
    assert_eq!(out, json("{\"limit\":5,\"offset\":\"x\",\"topic_id\":-3,\"query\":\"10\",\"extra\":{\"a\":[1]}}"));
    let unknown = normalize_tool_arguments("username_to_user_id", json("{\"topic_id\":\"42\"}"));
    assert_eq!(unknown, json("{\"topic_id\":\"42\"}"));
    let not_object = normalize_tool_arguments("get_posts", json("[\"1\"]"));
    assert_eq!(not_object, json("[\"1\"]"));
    let already = normalize_tool_arguments("get_posts", json("{\"page\":2,\"size\":\"+7\"}"));
    assert_eq!(already, json("{\"page\":2,\"size\":7}"));
}

#[test]
fn normalize_members_on_object() {
    let mut m = serde_json::Map::new();
    m.insert("user_id".to_string(), Value::String("12".to_string()));
    m.insert("limit".to_string(), Value::String("99999999999999999999".to_string()));
    normalize_members("search_by_user", &mut m);
    assert_eq!(m["user_id"], json("12"));
    assert_eq!(m["limit"], json("\"99999999999999999999\""));
}

#[test]
fn numeric_parameter_table() {
    assert_eq!(numeric_params("get_posts"), vec!["page", "size", "topic_id"]);
    assert_eq!(numeric_params("search_forum"), vec!["limit", "offset"]);
    assert_eq!(numeric_params("search_by_user"), vec!["limit", "offset", "user_id"]);
    assert!(numeric_params("get_user_profile").is_empty());
    assert!(numeric_params("").is_empty());
}

#[test]
fn argument_parsing() {
    assert_eq!(parse_tool_arguments("get_topic_summary", "{\"topic_id\":\"7\"}"), Ok(json("{\"topic_id\":7}")));
    assert_eq!(parse_tool_arguments("x", ""), Ok(json("{}")));
    let err = parse_tool_arguments("x", "{\"a\":").unwrap_err();
    assert!(err.starts_with("Error parsing tool arguments: "));
    assert!(err.len() > "Error parsing tool arguments: ".len());
}

#[test]
fn integer_text_reading() {
    assert_eq!(parse_i64("42"), Some(42));
    assert_eq!(parse_i64("-42"), Some(-42));
    assert_eq!(parse_i64("+42"), Some(42));
    assert_eq!(parse_i64("007"), Some(7));
    assert_eq!(parse_i64("9223372036854775807"), Some(i64::MAX));
    assert_eq!(parse_i64("-9223372036854775808"), Some(i64::MIN));
    assert_eq!(parse_i64("9223372036854775808"), None);
    assert_eq!(parse_i64("-9223372036854775809"), None);
    assert_eq!(parse_i64("123456789012345678901234"), None);
    assert_eq!(parse_i64(""), None);
    assert_eq!(parse_i64("-"), None);
    assert_eq!(parse_i64("+"), None);
    assert_eq!(parse_i64("1.5"), None);
    assert_eq!(parse_i64(" 1"), None);
    assert_eq!(parse_i64("１"), None);
}

#[test]
fn text_helpers() {
    assert!(contains_text("Protocol error 503 here", "503"));
    assert!(!contains_text("50", "503"));
    assert!(contains_text("abc", ""));
    assert!(contains_text("", ""));
    assert!(same_text("abc", "abc"));
    assert!(!same_text("abc", "abd"));
    assert!(!same_text("ab", "abc"));
    assert_eq!(joined("ab", "cd"), "abcd");
}

#[test]
fn malformed_error_classifier() {
    assert!(is_malformed_tool_call_error("unknown variant `x`, expected `function`"));
    assert!(!is_malformed_tool_call_error("unknown variant `x`"));
    assert!(!is_malformed_tool_call_error("expected `function`"));
    assert!(!is_malformed_tool_call_error("timeout"));
}

fn http(connect: bool, timeout: bool, request: bool) -> McpError {
    McpError::Http(HttpFailure { connect, timeout, request, message: "boom".to_string() })
}

#[test]
fn retryable_errors() {
    assert!(http(true, false, false).is_retryable_error());
    assert!(http(false, true, false).is_retryable_error());
    assert!(http(false, false, true).is_retryable_error());
    assert!(!http(false, false, false).is_retryable_error());
    assert!(McpError::Connection("x".to_string()).is_retryable_error());
    for code in ["404", "500", "502", "503"] {
        assert!(McpError::Protocol(format!("status {} Not Found", code)).is_retryable_error());
    }
    assert!(!McpError::Protocol("status 401".to_string()).is_retryable_error());
    assert!(!McpError::Serialization("bad".to_string()).is_retryable_error());
    assert!(!McpError::Initialization("bad".to_string()).is_retryable_error());
    assert!(!McpError::Other("bad".to_string()).is_retryable_error());
}

#[test]
fn backoff_doubles_then_gives_up() {
    let e = McpError::Connection("refused".to_string());
    assert_eq!(retry_decision(0, &e), RetryDecision::RetryAfter(1000));
    assert_eq!(retry_decision(1, &e), RetryDecision::RetryAfter(2000));
    assert_eq!(retry_decision(2, &e), RetryDecision::GiveUp);
    let fatal = McpError::Protocol("status 400".to_string());
    assert_eq!(retry_decision(0, &fatal), RetryDecision::GiveUp);
}

#[test]
fn error_descriptions() {
    assert_eq!(http(true, false, false).describe(), "HTTP request error: boom");
    assert_eq!(McpError::Protocol("p".to_string()).describe(), "Protocol error: p");
    assert_eq!(McpError::Connection("c".to_string()).describe(), "Connection failed: c");
    assert_eq!(McpError::Serialization("s".to_string()).describe(), "Serialization error: s");
    assert_eq!(McpError::Initialization("i".to_string()).describe(), "Initialization failed: i");
    assert_eq!(McpError::Other("o".to_string()).describe(), "Other error: o");
    assert_eq!(AuthError::TokenExpired.describe(), "Authentication token has expired");
    assert_eq!(AuthError::DatabaseError("gone".to_string()).describe(), "Database error: gone");
}

fn content(kind: &str, text: Option<&str>) -> McpContent {
    McpContent { content_type: kind.to_string(), text: text.map(|s| s.to_string()), data: None }
}

#[test]
fn tool_response_texts_joined_by_lines() {
    let r = McpToolResponse {
        content: vec![content("text", Some("a")), content("image", None), content("text", Some("b"))],
        is_error: None,
    };
    assert_eq!(tool_response_text(&r), "a\nb");
    let empty = McpToolResponse { content: vec![], is_error: Some(false) };
    assert_eq!(tool_response_text(&empty), "");
}

#[test]
fn tool_failure_response_becomes_error() {
    let failed = McpToolResponse {
        content: vec![content("image", Some("pic")), content("text", Some("no such topic"))],
        is_error: Some(true),
    };
    match check_tool_response(failed) {
        Err(McpError::Protocol(m)) => assert_eq!(m, "Tool execution error: no such topic"),
        other => panic!("unexpected {:?}", other),
    }
    let bare = McpToolResponse { content: vec![], is_error: Some(true) };
    match check_tool_response(bare) {
        Err(McpError::Protocol(m)) => assert_eq!(m, "Tool execution error: Unknown error"),
        other => panic!("unexpected {:?}", other),
    }
    let fine = McpToolResponse { content: vec![content("text", Some("ok"))], is_error: Some(false) };
    assert_eq!(tool_response_text(&check_tool_response(fine).unwrap()), "ok");
}

#[test]
fn tool_results_formatting() {
    assert_eq!(ToolCallHelper::format_tool_results(&[]), "");
    let one = vec![("1".to_string(), "x".to_string())];
    assert_eq!(ToolCallHelper::format_tool_results(&one), "Tool 1 result: x");
    let two = vec![("1".to_string(), "x".to_string()), ("2".to_string(), "y".to_string())];
    assert_eq!(ToolCallHelper::format_tool_results(&two), "Tool 1 result: x\n\nTool 2 result: y");
}

#[test]
fn entries_convert_for_clients() {
    assert_eq!(convert_entry_type(StreamingEntryType::ToolCallResult), ApiType::ToolCallResult);
    assert_eq!(convert_entry_type(StreamingEntryType::Content), ApiType::Content);
    assert_eq!(convert_tool_call_status(ToolCallStatus::Executing), ApiStatus::Executing);
    assert_eq!(convert_tool_call_status(ToolCallStatus::Error), ApiStatus::Error);
    let t = convert_tool_call_entry(ToolCallEntry {
        tool_name: "get".to_string(),
        tool_id: "1".to_string(),
        arguments: Some("{}".to_string()),
        result: None,
        status: ToolCallStatus::Starting,
    });
    assert_eq!(t.tool_name, "get");
    assert_eq!(t.status, ApiStatus::Starting);
    let r = StreamingResponse::from_entry(StreamingEntry::content_fragment("hi".to_string()));
    assert_eq!(r.content, "hi");
    assert!(!r.is_complete);
    assert_eq!(r.entry_type, ApiType::Content);
    let f = StreamingResponse::from_failure("bad".to_string());
    assert!(f.is_complete);
    assert_eq!(f.error.as_deref(), Some("bad"));
    assert_eq!(f.entry_type, ApiType::ToolCallError);
}

#[test]
fn forum_configs() {
    let c = create_discourse_configs();
    assert_eq!(c.len(), 2);
    assert_eq!(c[0].discourse_id, "magicians");
    assert_eq!(c[0].url, "https://ethereum-magicians.org");
    assert_eq!(c[1].discourse_id, "research");
    assert_eq!(c[1].url, "https://ethresear.ch");
    assert_eq!(c[1].scrape_interval, "30m");
    let _ = PMModule::new();
}

#[test]
fn event_stream_reply_is_first_json_data_line() {
    let body = "event: message\r\ndata: not json\r\n\r\ndata: {\"id\":3}\r\ndata: {\"id\":4}\n";
    assert_eq!(first_event_json(body), Some(json("{\"id\":3}")));
    assert_eq!(first_event_json("data: [1,2]"), Some(json("[1,2]")));
    assert_eq!(first_event_json("data:{\"a\":1}\nid: 1\n"), None);
    assert_eq!(first_event_json(""), None);
    assert_eq!(first_event_json("\n\n"), None);
}

#[test]
fn get_posts_example_normalizes_and_keeps_unknown_fields() {
    let out = normalize_tool_arguments("get_posts", json("{\"page\":\"2\",\"size\":\"20\",\"topic_id\":\"7\",\"query\":\"gas\"}"));
    assert_eq!(out, json("{\"page\":2,\"size\":20,\"topic_id\":7,\"query\":\"gas\"}"));
}

#[test]
fn normalization_is_idempotent() {
    let inputs = [
        ("get_posts", "{\"page\":\"2\",\"size\":\"x\",\"topic_id\":7}"),
        ("search_by_user", "{\"user_id\":\"-1\",\"limit\":\"1e3\"}"),
        ("unknown", "{\"topic_id\":\"1\"}"),
        ("get_posts", "\"5\""),
    ];
    for (tool, text) in inputs {
        let once = normalize_tool_arguments(tool, json(text));
        let twice = normalize_tool_arguments(tool, once.clone());
        assert_eq!(once, twice);
    }
}

#[test]
fn tool_reply_decoding() {
    let ok = json("{\"jsonrpc\":\"2.0\",\"id\":3,\"result\":{\"content\":[{\"type\":\"text\",\"text\":\"a\"},{\"text\":\"b\",\"data\":\"d\"},7]}}");
    let r = decode_tool_reply(&ok).unwrap();
    assert_eq!(r.content.len(), 3);
    assert_eq!(r.content[1].content_type, "text");
    assert_eq!(r.content[1].data.as_deref(), Some("d"));
    assert_eq!(r.content[2].text, None);
    assert_eq!(r.is_error, None);
    assert_eq!(tool_response_text(&r), "a\nb");

    let batch = json("[{\"result\":{\"content\":[{\"type\":\"text\",\"text\":\"x\"}],\"isError\":false}}]");
    assert_eq!(tool_response_text(&decode_tool_reply(&batch).unwrap()), "x");

    let failed = json("{\"result\":{\"content\":[{\"type\":\"text\",\"text\":\"no topic\"}],\"isError\":true}}");
    match decode_tool_reply(&failed) {
        Err(McpError::Protocol(m)) => assert_eq!(m, "Tool execution error: no topic"),
        other => panic!("unexpected {:?}", other),
    }
    let error = json("{\"error\":{\"code\":-32601}}");
    match decode_tool_reply(&error) {
        Err(McpError::Protocol(m)) => assert_eq!(m, "Tool call error: {\"code\":-32601}"),
        other => panic!("unexpected {:?}", other),
    }
    for odd in ["[]", "{\"id\":1}", "5"] {
        match decode_tool_reply(&json(odd)) {
            Err(McpError::Protocol(m)) => assert!(m.starts_with("Unexpected response format: ")),
            other => panic!("unexpected {:?}", other),
        }
    }
    let no_content = json("{\"result\":{}}");
    assert!(decode_tool_reply(&no_content).unwrap().content.is_empty());
}
