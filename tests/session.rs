use completion_engine::buffer::{EntryBuffer, StreamItem};
use completion_engine::entry::{StreamingEntry, StreamingEntryType, ToolCallStatus};
use completion_engine::key::CoalescingKey;
use completion_engine::prompt::{ChatMessage, Delta, OngoingPrompt, Phase, Role, ToolAction};
use completion_engine::registry::OngoingPromptManager;
use completion_engine::turn::{ToolCallFragment, TurnAccumulator};

fn message(role: Role, text: &str) -> ChatMessage {
    ChatMessage { role, content: Some(text.to_string()), tool_calls: Vec::new(), tool_call_id: None }
}

fn text_delta(text: &str) -> Delta {
    Delta { content: Some(text.to_string()), tool_calls: Vec::new(), finish_reason: None }
}

fn stop() -> Delta {
    Delta { content: None, tool_calls: Vec::new(), finish_reason: Some("stop".to_string()) }
}

fn fragment(id: Option<&str>, name: Option<&str>, args: Option<&str>) -> ToolCallFragment {
    ToolCallFragment {
        id: id.map(|s| s.to_string()),
        name: name.map(|s| s.to_string()),
        arguments: args.map(|s| s.to_string()),
    }
}

fn calls_delta(frags: Vec<ToolCallFragment>, finish: bool) -> Delta {
    Delta {
        content: None,
        tool_calls: frags,
        finish_reason: if finish { Some("tool_calls".to_string()) } else { None },
    }
}

fn scenario_messages() -> Vec<ChatMessage> {
    vec![message(Role::System, "You answer questions about the forum."), message(Role::User, "What's topic 5 about?")]
}

#[test]
fn end_to_end_text_answer() {
    let mut p = OngoingPrompt::new(scenario_messages(), None);
    let mut sub = p.subscribe();
    assert!(matches!(p.entry_log().next_item(&mut sub), StreamItem::Pending));
    p.on_delta(&text_delta("It's "));
    p.on_delta(&text_delta("about gas."));
    p.on_delta(&stop());
    assert_eq!(p.phase(), Phase::Done);
    assert!(p.is_complete());
    assert_eq!(p.completion_result(), Some(Ok("It's about gas.".to_string())));
    let mut seen = Vec::new();
    loop {
        match p.entry_log().next_item(&mut sub) {
            StreamItem::Entry(e) => seen.push(e.content),
            StreamItem::End => break,
            other => panic!("unexpected item {:?}", other),
        }
    }
    assert_eq!(seen, vec!["It's ".to_string(), "about gas.".to_string()]);
}

#[test]
fn text_only_turn_is_done_with_concatenation() {
    let mut p = OngoingPrompt::new(scenario_messages(), None);
    for piece in ["a", "b", "", "c"] {
        p.on_delta(&text_delta(piece));
    }
    assert_eq!(p.phase(), Phase::Streaming);
    p.on_delta(&stop());
    assert_eq!(p.phase(), Phase::Done);
    assert_eq!(p.completion_result(), Some(Ok("abc".to_string())));
    // the empty fragment is not logged
    assert_eq!(p.get_all_events().len(), 3);
}

#[test]
fn empty_turn_is_done_with_empty_answer() {
    let mut p = OngoingPrompt::new(scenario_messages(), None);
    p.on_delta(&stop());
    assert_eq!(p.completion_result(), Some(Ok(String::new())));
    assert!(p.get_all_events().is_empty());
}

#[test]
fn completion_wait_is_repeatable() {
    let mut p = OngoingPrompt::new(scenario_messages(), None);
    assert_eq!(p.completion_result(), None);
    p.on_delta(&text_delta("done"));
    p.on_delta(&stop());
    let first = p.completion_result();
    let second = p.completion_result();
    assert_eq!(first, second);
    assert_eq!(first, Some(Ok("done".to_string())));

    let mut q = OngoingPrompt::new(scenario_messages(), None);
    q.on_transport_error("connection reset".to_string());
    assert_eq!(q.completion_result(), Some(Err("connection reset".to_string())));
    assert_eq!(q.completion_result(), Some(Err("connection reset".to_string())));
    assert_eq!(q.get_error(), Some("connection reset".to_string()));
    assert_eq!(q.phase(), Phase::Failed);
}

#[test]
fn fragments_accumulate_into_two_calls() {
    let mut acc = TurnAccumulator::new();
    acc.push_fragment(&fragment(Some("1"), Some("get"), None));
    acc.push_fragment(&fragment(Some("1"), None, Some("{\"topic_")));
    acc.push_fragment(&fragment(Some("1"), None, Some("id\":5}")));
    acc.push_fragment(&fragment(Some("2"), Some("search"), None));
    acc.flush();
    let (_, calls) = acc.into_parts();
    assert_eq!(calls.len(), 2);
    assert_eq!(calls[0].id, "1");
    assert_eq!(calls[0].function_name, "get");
    assert_eq!(calls[0].arguments, "{\"topic_id\":5}");
    assert_eq!(calls[1].id, "2");
    assert_eq!(calls[1].function_name, "search");
    assert_eq!(calls[1].arguments, "");
}

#[test]
fn fragments_without_id_extend_current_call() {
    let mut acc = TurnAccumulator::new();
    acc.push_fragment(&fragment(None, Some("ignored"), None));
    acc.push_fragment(&fragment(Some("a"), Some("get_"), Some("{")));
    acc.push_fragment(&fragment(None, Some("posts"), Some("}")));
    acc.flush();
    let (_, calls) = acc.into_parts();
    assert_eq!(calls.len(), 1);
    assert_eq!(calls[0].function_name, "get_posts");
    assert_eq!(calls[0].arguments, "{}");
}

fn run_tool_turn(p: &mut OngoingPrompt) {
    p.on_delta(&text_delta("Looking it up. "));
    p.on_delta(&calls_delta(
        vec![
            fragment(Some("1"), Some("get"), None),
            fragment(Some("1"), None, Some("{\"topic_")),
            fragment(Some("1"), None, Some("id\":5}")),
            fragment(Some("2"), Some("search"), None),
        ],
        true,
    ));
}

#[test]
fn tool_turn_runs_each_call_then_next_turn() {
    let mut p = OngoingPrompt::new(scenario_messages(), None);
    run_tool_turn(&mut p);
    assert_eq!(p.phase(), Phase::ToolReady);
    assert_eq!(p.history().len(), 3);
    let assistant = &p.history()[2];
    assert_eq!(assistant.role, Role::Assistant);
    assert_eq!(assistant.content.as_deref(), Some("Looking it up. "));
    assert_eq!(assistant.tool_calls.len(), 2);

    match p.begin_tool_call() {
        ToolAction::Execute { name, arguments } => {
            assert_eq!(name, "get");
            assert_eq!(arguments, serde_json::from_str::<serde_json::Value>("{\"topic_id\":5}").unwrap());
        }
        ToolAction::Skipped => panic!("arguments should parse"),
    }
    assert_eq!(p.phase(), Phase::ToolRunning);
    p.on_tool_result(Ok("Topic 5 is about gas.".to_string()));
    assert_eq!(p.phase(), Phase::ToolReady);
    match p.begin_tool_call() {
        ToolAction::Execute { name, arguments } => {
            assert_eq!(name, "search");
            assert_eq!(arguments, serde_json::Value::Object(serde_json::Map::new()));
        }
        ToolAction::Skipped => panic!("empty arguments stand for an empty object"),
    }
    p.on_tool_result(Ok("nothing".to_string()));
    assert_eq!(p.phase(), Phase::Streaming);
    assert_eq!(p.history().len(), 5);
    assert_eq!(p.history()[3].role, Role::Tool);
    assert_eq!(p.history()[3].tool_call_id.as_deref(), Some("1"));
    assert_eq!(p.history()[3].content.as_deref(), Some("Topic 5 is about gas."));

    let kinds: Vec<(StreamingEntryType, Option<ToolCallStatus>)> = p
        .get_all_events()
        .iter()
        .map(|e| (e.entry_type, e.tool_call.as_ref().map(|t| t.status)))
        .collect();
    assert_eq!(
        kinds,
        vec![
            (StreamingEntryType::Content, None),
            (StreamingEntryType::ToolCallStart, Some(ToolCallStatus::Starting)),
            (StreamingEntryType::ToolCallStart, Some(ToolCallStatus::Executing)),
            (StreamingEntryType::ToolCallResult, Some(ToolCallStatus::Success)),
            (StreamingEntryType::ToolCallStart, Some(ToolCallStatus::Starting)),
            (StreamingEntryType::ToolCallStart, Some(ToolCallStatus::Executing)),
            (StreamingEntryType::ToolCallResult, Some(ToolCallStatus::Success)),
        ]
    );

    p.on_delta(&text_delta("It is about gas."));
    p.on_delta(&stop());
    assert_eq!(p.completion_result(), Some(Ok("Looking it up. It is about gas.".to_string())));
}

#[test]
fn tool_failure_keeps_session_alive() {
    let mut p = OngoingPrompt::new(scenario_messages(), None);
    p.on_delta(&calls_delta(vec![fragment(Some("x"), Some("get_posts"), Some("{}"))], true));
    assert!(matches!(p.begin_tool_call(), ToolAction::Execute { .. }));
    p.on_tool_result(Err("server down".to_string()));
    assert_eq!(p.phase(), Phase::Streaming);
    assert_eq!(p.get_error(), None);
    let last = p.get_all_events().pop().unwrap();
    assert_eq!(last.entry_type, StreamingEntryType::ToolCallError);
    let call = last.tool_call.unwrap();
    assert_eq!(call.status, ToolCallStatus::Error);
    assert_eq!(call.result.as_deref(), Some("Error executing tool get_posts: server down"));
    assert_eq!(
        p.history().last().unwrap().content.as_deref(),
        Some("Error executing tool get_posts: server down")
    );
    p.on_delta(&text_delta("Sorry."));
    p.on_delta(&stop());
    assert_eq!(p.completion_result(), Some(Ok("Sorry.".to_string())));
}

#[test]
fn unparsable_arguments_are_recorded_without_running() {
    let mut p = OngoingPrompt::new(scenario_messages(), None);
    p.on_delta(&calls_delta(vec![fragment(Some("x"), Some("get_posts"), Some("{oops"))], true));
    assert!(matches!(p.begin_tool_call(), ToolAction::Skipped));
    assert_eq!(p.phase(), Phase::Streaming);
    let last = p.get_all_events().pop().unwrap();
    assert_eq!(last.entry_type, StreamingEntryType::ToolCallError);
    let result = last.tool_call.unwrap().result.unwrap();
    assert!(result.starts_with("Error parsing tool arguments: "));
    assert_eq!(p.history().last().unwrap().content.as_deref(), Some(result.as_str()));
    assert_eq!(p.history().last().unwrap().tool_call_id.as_deref(), Some("x"));
}

#[test]
fn malformed_tool_call_error_recovers_open_call() {
    let mut p = OngoingPrompt::new(scenario_messages(), None);
    p.on_delta(&calls_delta(vec![fragment(Some("1"), Some("get_topic_summary"), Some("{\"topic_id\":1}"))], false));
    p.on_transport_error("unknown variant `tool`, expected `function` at line 1".to_string());
    assert_eq!(p.phase(), Phase::ToolReady);
    assert_eq!(p.get_error(), None);
}

#[test]
fn malformed_error_without_named_call_fails() {
    let mut p = OngoingPrompt::new(scenario_messages(), None);
    p.on_delta(&calls_delta(vec![fragment(Some("1"), None, Some("{"))], false));
    let msg = "unknown variant `tool`, expected `function`".to_string();
    p.on_transport_error(msg.clone());
    assert_eq!(p.phase(), Phase::Failed);
    assert_eq!(p.completion_result(), Some(Err(msg)));
}

#[test]
fn stream_end_without_signal_drops_open_call() {
    let mut p = OngoingPrompt::new(scenario_messages(), None);
    p.on_delta(&text_delta("partial"));
    p.on_delta(&calls_delta(vec![fragment(Some("1"), Some("get"), None)], false));
    p.on_stream_end();
    assert_eq!(p.phase(), Phase::Done);
    assert_eq!(p.completion_result(), Some(Ok("partial".to_string())));
}

#[test]
fn failed_session_reports_error_to_subscribers() {
    let mut p = OngoingPrompt::new(scenario_messages(), None);
    p.on_delta(&text_delta("x"));
    p.fail("no stream".to_string());
    let mut sub = p.subscribe();
    assert!(matches!(p.entry_log().next_item(&mut sub), StreamItem::Entry(_)));
    match p.entry_log().next_item(&mut sub) {
        StreamItem::Failed(e) => assert_eq!(e, "no stream"),
        other => panic!("unexpected item {:?}", other),
    }
}

#[test]
fn late_subscriber_replays_then_follows() {
    let mut b = EntryBuffer::new();
    for i in 0..3 {
        b.append(StreamingEntry::content_fragment(format!("e{}", i)));
    }
    let mut early = b.subscribe();
    assert!(matches!(b.next_item(&mut early), StreamItem::Entry(_)));
    let mut late = b.subscribe();
    let mut got = Vec::new();
    for _ in 0..3 {
        match b.next_item(&mut late) {
            StreamItem::Entry(e) => got.push(e.content),
            other => panic!("unexpected item {:?}", other),
        }
    }
    assert!(matches!(b.next_item(&mut late), StreamItem::Pending));
    b.append(StreamingEntry::content_fragment("e3".to_string()));
    b.append(StreamingEntry::content_fragment("e4".to_string()));
    b.finish(None);
    loop {
        match b.next_item(&mut late) {
            StreamItem::Entry(e) => got.push(e.content),
            StreamItem::End => break,
            other => panic!("unexpected item {:?}", other),
        }
    }
    assert_eq!(got, vec!["e0", "e1", "e2", "e3", "e4"]);
    assert_eq!(late.received_count(), 5);
    let mut rest = Vec::new();
    while let StreamItem::Entry(e) = b.next_item(&mut early) {
        rest.push(e.content);
    }
    assert_eq!(rest, vec!["e1", "e2", "e3", "e4"]);
    let mut after_end = b.subscribe();
    let mut count = 0;
    while let StreamItem::Entry(_) = b.next_item(&mut after_end) {
        count += 1;
    }
    assert_eq!(count, 5);
    assert_eq!(b.all_entries().len(), 5);
}

#[test]
fn same_key_shares_one_session() {
    let mut m: OngoingPromptManager<std::rc::Rc<std::cell::RefCell<OngoingPrompt>>> = OngoingPromptManager::new();
    let mut made = 0;
    let created = m.get_or_create("abc".to_string(), || {
        made += 1;
        std::rc::Rc::new(std::cell::RefCell::new(OngoingPrompt::new(scenario_messages(), None)))
    });
    assert!(created);
    let again = m.get_or_create("abc".to_string(), || {
        std::rc::Rc::new(std::cell::RefCell::new(OngoingPrompt::new(Vec::new(), None)))
    });
    assert!(!again);
    assert_eq!(made, 1);
    let a = m.get("abc").unwrap().clone();
    let b = m.get("abc").unwrap().clone();
    assert!(std::rc::Rc::ptr_eq(&a, &b));
    a.borrow_mut().on_delta(&text_delta("shared"));
    let seen = b.borrow().get_all_events();
    assert_eq!(seen.len(), 1);
    assert_eq!(seen[0].content, "shared");
    assert_eq!(b.borrow().history().len(), 2);
}

#[test]
fn registry_additional_keys_and_removal() {
    let mut m: OngoingPromptManager<u32> = OngoingPromptManager::new();
    assert!(m.get_or_create("chat-1".to_string(), || 7));
    m.insert_additional_key("msg-9".to_string(), *m.get("chat-1").unwrap());
    assert_eq!(m.get("msg-9"), Some(&7));
    let mut keys = m.list_keys();
    keys.sort();
    assert_eq!(keys, vec!["chat-1".to_string(), "msg-9".to_string()]);
    m.insert_additional_key("msg-9".to_string(), 8);
    assert_eq!(m.get("msg-9"), Some(&8));
    assert_eq!(m.list_keys().len(), 2);
    assert_eq!(m.remove("chat-1"), Some(7));
    assert_eq!(m.remove("chat-1"), None);
    assert_eq!(m.get("chat-1"), None);
    assert_eq!(m.list_keys(), vec!["msg-9".to_string()]);
}

#[test]
fn coalescing_keys_have_distinct_texts() {
    let turn = CoalescingKey::ChatTurn { chat_id: "c1".to_string(), message_id: "m2".to_string() };
    assert_eq!(turn.key_text(), "chat/c1/m2");
    assert_eq!(CoalescingKey::TopicSummary { topic_id: 5 }.key_text(), "summary/5");
    assert_eq!(CoalescingKey::TopicSummary { topic_id: 0 }.key_text(), "summary/0");
    assert_eq!(CoalescingKey::TopicSummary { topic_id: 1230 }.key_text(), "summary/1230");
    assert_eq!(CoalescingKey::TopicSummary { topic_id: u64::MAX }.key_text(), "summary/18446744073709551615");
    let other = CoalescingKey::ChatTurn { chat_id: "c1".to_string(), message_id: "m3".to_string() };
    assert_ne!(turn.key_text(), other.key_text());
}

#[test]
fn tool_runs_with_normalized_arguments() {
    let mut p = OngoingPrompt::new(scenario_messages(), None);
    p.on_delta(&calls_delta(
        vec![fragment(Some("c"), Some("get_topic_summary"), Some("{\"topic_id\":\"42\"}"))],
        true,
    ));
    match p.begin_tool_call() {
        ToolAction::Execute { name, arguments } => {
            assert_eq!(name, "get_topic_summary");
            assert_eq!(arguments, serde_json::from_str::<serde_json::Value>("{\"topic_id\":42}").unwrap());
            assert!(arguments["topic_id"].is_i64());
        }
        ToolAction::Skipped => panic!("arguments should parse"),
    }
    for e in p.get_all_events() {
        let call = e.tool_call.unwrap();
        assert_eq!(call.arguments.as_deref(), Some("{\"topic_id\":\"42\"}"));
        assert_eq!(call.tool_id, "c");
    }
}
