//! One completion session: the turn state machine that streams the model's
//! output into the entry log, runs the tool calls that a turn asks for, and
//! decides whether another turn follows. Whoever drives the session opens
//! the transport, hands each delta or error in as an event, runs the tools
//! that it is asked to run, and hands their results back.
use vstd::prelude::*;
use crate::args::{arguments_parse, arguments_value, parse_error_prefix, parse_tool_arguments};
use crate::buffer::{EntryBuffer, StreamItem, Subscription};
use crate::entry::{content_entry, tool_entry, StreamingEntry, StreamingEntryType, ToolCallStatus};
use crate::text::{contains_text, joined, occurs_in};
use crate::turn::{after_fragments, call_views, piece, CallView, ToolCall, ToolCallFragment, TurnAccumulator};

verus! {

/// Who wrote a message of the conversation.
#[derive(Debug, Clone, Copy, PartialEq, Eq, Structural)]
pub enum Role {
    System,
    User,
    Assistant,
    Tool,
}

/// One message of the conversation history.
#[derive(Debug, Clone)]
pub struct ChatMessage {
    pub role: Role,
    pub content: Option<String>,
    pub tool_calls: Vec<ToolCall>,
    pub tool_call_id: Option<String>,
}

/// A tool that the model may call, as offered to the transport.
#[derive(Debug, Clone)]
pub struct ToolDefinition {
    pub name: String,
    pub description: Option<String>,
    pub parameters: Option<serde_json::Value>,
}

/// One increment of the transport's stream.
#[derive(Debug, Clone)]
pub struct Delta {
    pub content: Option<String>,
    pub tool_calls: Vec<ToolCallFragment>,
    pub finish_reason: Option<String>,
}

/// Where a session stands.
#[derive(Debug, Clone, Copy, PartialEq, Eq, Structural)]
pub enum Phase {
    /// A turn is streaming from the transport.
    Streaming,
    /// The turn's next tool call is to be started.
    ToolReady,
    /// The turn's current tool call is running.
    ToolRunning,
    /// The session ended with a final answer.
    Done,
    /// The session ended with an error.
    Failed,
}

/// What the driver is asked to do for the current tool call.
#[derive(Debug)]
pub enum ToolAction {
    /// Run tool `name` with `arguments`, then hand the result back.
    Execute { name: String, arguments: serde_json::Value },
    /// The arguments did not parse; the failure is recorded and nothing is to run.
    Skipped,
}

/// The phase that follows a turn that completed `calls`.
pub open spec fn phase_after_turn(calls: Seq<CallView>) -> Phase {
    if calls.len() == 0 {
        Phase::Done
    } else {
        Phase::ToolReady
    }
}

/// The phase that follows the tool call at `index` of `count`.
pub open spec fn phase_after_tool(index: nat, count: nat) -> Phase {
    if index + 1 < count {
        Phase::ToolReady
    } else {
        Phase::Streaming
    }
}

/// The calls that a turn completed, with the call still open at its end.
pub open spec fn closed_calls(done: Seq<CallView>, open: Option<CallView>) -> Seq<CallView> {
    match open {
        Some(c) => done.push(c),
        None => done,
    }
}

/// The assistant message that records a turn's text and its calls.
pub open spec fn assistant_message(m: ChatMessage, text: Seq<char>, calls: Seq<CallView>) -> bool {
    &&& m.role == Role::Assistant
    &&& (if text.len() == 0 {
        m.content is None
    } else {
        m.content matches Some(c) && c@ == text
    })
    &&& call_views(m.tool_calls@) == calls
    &&& m.tool_call_id is None
}

/// The tool message that answers call `id` with `text`.
pub open spec fn tool_message(m: ChatMessage, id: Seq<char>, text: Seq<char>) -> bool {
    &&& m.role == Role::Tool
    &&& m.content matches Some(c) && c@ == text
    &&& m.tool_calls@.len() == 0
    &&& m.tool_call_id matches Some(i) && i@ == id
}

/// A transport error that reports a malformed tool call in the stream.
pub open spec fn malformed_tool_call(message: Seq<char>) -> bool {
    occurs_in(message, "unknown variant"@) && occurs_in(message, "expected `function`"@)
}

/// Whether a transport error reports a malformed tool call.
pub fn is_malformed_tool_call_error(message: &str) -> (r: bool)
    ensures
        r == malformed_tool_call(message@),
{
    contains_text(message, "unknown variant") && contains_text(message, "expected `function`")
}

/// The text recorded when tool `name` failed with `error`.
pub open spec fn tool_failure_text(name: Seq<char>, error: Seq<char>) -> Seq<char> {
    "Error executing tool "@ + name + ": "@ + error
}

/// The session's outcome once it has ended.
pub open spec fn outcome_of(
    complete: bool,
    error: Option<String>,
    final_text: Option<String>,
) -> Option<Result<String, String>> {
    if !complete {
        None
    } else {
        match error {
            Some(e) => Some(Err(e)),
            None => match final_text {
                Some(t) => Some(Ok(t)),
                None => None,
            },
        }
    }
}

/// One completion session.
#[derive(Debug)]
pub struct OngoingPrompt {
    buffer: EntryBuffer,
    history: Vec<ChatMessage>,
    tools: Option<Vec<ToolDefinition>>,
    phase: Phase,
    turn: TurnAccumulator,
    pending: Vec<ToolCall>,
    next_call: usize,
    accumulated: String,
    final_content: Option<String>,
}

impl OngoingPrompt {
    pub closed spec fn entries(&self) -> Seq<StreamingEntry> {
        self.buffer.log()
    }

    pub closed spec fn log(&self) -> EntryBuffer {
        self.buffer
    }

    pub closed spec fn conversation(&self) -> Seq<ChatMessage> {
        self.history@
    }

    /// The tools that every turn offers.
    pub closed spec fn tool_catalog(&self) -> Option<Vec<ToolDefinition>> {
        self.tools
    }

    pub closed spec fn state(&self) -> Phase {
        self.phase
    }

    /// The text generated in every turn so far.
    pub closed spec fn text_so_far(&self) -> Seq<char> {
        self.accumulated@
    }

    pub closed spec fn turn_text(&self) -> Seq<char> {
        self.turn.turn_text()
    }

    pub closed spec fn turn_calls(&self) -> Seq<CallView> {
        self.turn.completed_calls()
    }

    pub closed spec fn open_call(&self) -> Option<CallView> {
        self.turn.open_call()
    }

    /// The calls of the turn that are being run.
    pub closed spec fn calls_to_run(&self) -> Seq<CallView> {
        call_views(self.pending@)
    }

    /// The index of the call being run.
    pub closed spec fn call_index(&self) -> nat {
        self.next_call as nat
    }

    pub closed spec fn final_text(&self) -> Option<String> {
        self.final_content
    }

    pub closed spec fn error(&self) -> Option<String> {
        self.buffer.failure()
    }

    pub closed spec fn completed(&self) -> bool {
        self.buffer.is_finished()
    }

    /// The result that a completion wait returns: none while the session
    /// runs; then its error if it failed, else its final text.
    pub open spec fn outcome(&self) -> Option<Result<String, String>> {
        outcome_of(self.completed(), self.error(), self.final_text())
    }

    /// What a caller can rely on of any session: it has completed exactly
    /// when it is done or failed; a done session has its final text and no
    /// error; a failed one has its error.
    pub open spec fn settled(&self) -> bool {
        &&& self.completed() == (self.state() == Phase::Done || self.state() == Phase::Failed)
        &&& self.state() == Phase::Done ==> self.error() is None && self.final_text() is Some
        &&& self.state() == Phase::Failed ==> self.error() is Some
    }

    /// The session's own consistency.
    pub closed spec fn wf(&self) -> bool {
        &&& (self.phase == Phase::Streaming || self.phase == Phase::ToolReady || self.phase
            == Phase::ToolRunning) <==> !self.buffer.is_finished()
        &&& self.phase == Phase::Done ==> self.buffer.failure() is None
            && self.final_content is Some
        &&& self.phase == Phase::Failed ==> self.buffer.failure() is Some
        &&& !self.buffer.is_finished() ==> self.buffer.failure() is None
        &&& (self.phase == Phase::ToolReady || self.phase == Phase::ToolRunning) ==> self.next_call
            < self.pending@.len()
    }

    /// A session that starts its first turn with `messages` and `tools`.
    pub fn new(messages: Vec<ChatMessage>, tools: Option<Vec<ToolDefinition>>) -> (r: Self)
        ensures
            r.wf(),
            r.settled(),
            r.state() == Phase::Streaming,
            r.entries() == Seq::<StreamingEntry>::empty(),
            r.conversation() == messages@,
            r.tool_catalog() == tools,
            r.text_so_far() == Seq::<char>::empty(),
            r.turn_text() == Seq::<char>::empty(),
            r.turn_calls() == Seq::<CallView>::empty(),
            r.open_call() is None,
            r.outcome() is None,
    {
        OngoingPrompt {
            buffer: EntryBuffer::new(),
            history: messages,
            tools: tools,
            phase: Phase::Streaming,
            turn: TurnAccumulator::new(),
            pending: Vec::new(),
            next_call: 0,
            accumulated: String::new(),
            final_content: None,
        }
    }

    /// The conversation that the next turn sends.
    pub fn history(&self) -> (r: &Vec<ChatMessage>)
        ensures
            r@ == self.conversation(),
    {
        &self.history
    }

    /// The tools that the next turn offers.
    pub fn tools(&self) -> (r: &Option<Vec<ToolDefinition>>)
        ensures
            *r == self.tool_catalog(),
    {
        &self.tools
    }

    pub fn phase(&self) -> (r: Phase)
        ensures
            r == self.state(),
    {
        self.phase
    }

    /// Ends the turn: with no completed call the session is done and its
    /// answer is the text of every turn; otherwise the turn is recorded in
    /// the conversation and its calls are to be run.
    fn end_turn(&mut self)
        requires
            old(self).wf(),
            old(self).state() == Phase::Streaming,
            old(self).open_call() is None,
        ensures
            final(self).wf(),
            final(self).settled(),
            final(self).tool_catalog() == old(self).tool_catalog(),
            final(self).entries() == old(self).entries(),
            final(self).text_so_far() == old(self).text_so_far(),
            final(self).error() is None,
            turn_ended(*old(self), *final(self), old(self).turn_text(), old(self).turn_calls()),
    {
        let mut fresh = TurnAccumulator::new();
        std::mem::swap(&mut self.turn, &mut fresh);
        let (text, calls) = fresh.into_parts();
        if calls.len() == 0 {
            self.final_content = Some(self.accumulated.clone());
            self.phase = Phase::Done;
            self.buffer.finish(None);
        } else {
            let content = if text.as_str().is_empty() {
                None
            } else {
                Some(text)
            };
            let recorded = copy_calls(&calls);
            self.history.push(
                ChatMessage {
                    role: Role::Assistant,
                    content: content,
                    tool_calls: recorded,
                    tool_call_id: None,
                },
            );
            self.pending = calls;
            self.next_call = 0;
            self.phase = Phase::ToolReady;
            assert(self.history@ =~= old(self).history@.push(self.history@.last()));
        }
    }

    /// Takes in one delta of the turn's stream: its text is logged and
    /// kept, its tool-call fragments are merged, and a terminal signal ends
    /// the turn.
    pub fn on_delta(&mut self, delta: &Delta)
        requires
            old(self).wf(),
            old(self).state() == Phase::Streaming,
        ensures
            final(self).wf(),
            final(self).settled(),
            final(self).tool_catalog() == old(self).tool_catalog(),
            delta_applied(*old(self), *final(self), *delta),
    {
        match &delta.content {
            Some(c) => {
                if !c.as_str().is_empty() {
                    self.buffer.append(StreamingEntry::content_fragment(c.clone()));
                    self.turn.push_content(c.as_str());
                    self.accumulated.append(c.as_str());
                }
            },
            None => {},
        }
        let ghost d0 = self.turn.completed_calls();
        let ghost o0 = self.turn.open_call();
        let mut i: usize = 0;
        while i < delta.tool_calls.len()
            invariant
                self.wf(),
                self.phase == Phase::Streaming,
                self.buffer.failure() is None,
                self.text_so_far() == old(self).text_so_far() + piece(delta.content),
                self.entries() == old(self).entries() || piece(delta.content).len() > 0,
                piece(delta.content).len() == 0 ==> self.entries() == old(self).entries(),
                piece(delta.content).len() > 0 ==> {
                    &&& self.entries() == old(self).entries().push(self.entries().last())
                    &&& content_entry(piece(delta.content), self.entries().last())
                },
                self.turn_text() == old(self).turn_text() + piece(delta.content),
                self.conversation() == old(self).conversation(),
                self.tool_catalog() == old(self).tool_catalog(),
                d0 == old(self).turn_calls(),
                o0 == old(self).open_call(),
                i <= delta.tool_calls@.len(),
                (self.turn_calls(), self.open_call()) == after_fragments(
                    d0,
                    o0,
                    delta.tool_calls@.take(i as int),
                ),
            decreases delta.tool_calls@.len() - i,
        {
            proof {
                assert(delta.tool_calls@.take(i + 1).drop_last() =~= delta.tool_calls@.take(
                    i as int,
                ));
            }
            self.turn.push_fragment(&delta.tool_calls[i]);
            i = i + 1;
        }
        proof {
            assert(delta.tool_calls@.take(i as int) =~= delta.tool_calls@);
        }
        match &delta.finish_reason {
            Some(_) => {
                self.turn.flush();
                self.end_turn();
            },
            None => {},
        }
    }

    /// The stream ended without a terminal signal: the call in progress is
    /// dropped and the turn ends with the calls it completed.
    pub fn on_stream_end(&mut self)
        requires
            old(self).wf(),
            old(self).state() == Phase::Streaming,
        ensures
            final(self).wf(),
            final(self).settled(),
            final(self).tool_catalog() == old(self).tool_catalog(),
            final(self).error() is None,
            final(self).entries() == old(self).entries(),
            final(self).text_so_far() == old(self).text_so_far(),
            turn_ended(*old(self), *final(self), old(self).turn_text(), old(self).turn_calls()),
    {
        self.turn.discard_open_call();
        self.end_turn();
    }

    /// Ends the session with `message` as its error.
    pub fn fail(&mut self, message: String)
        requires
            old(self).wf(),
            !old(self).completed(),
        ensures
            final(self).wf(),
            final(self).settled(),
            final(self).tool_catalog() == old(self).tool_catalog(),
            final(self).state() == Phase::Failed,
            final(self).entries() == old(self).entries(),
            final(self).text_so_far() == old(self).text_so_far(),
            final(self).outcome() == Some(Err::<String, String>(message)),
    {
        self.final_content = Some(self.accumulated.clone());
        self.phase = Phase::Failed;
        self.buffer.finish(Some(message));
    }

    /// A transport error during the turn. One that reports a malformed tool
    /// call, while a call with a name is in progress, keeps that call as
    /// complete and ends the turn; any other error ends the session.
    pub fn on_transport_error(&mut self, message: String)
        requires
            old(self).wf(),
            old(self).state() == Phase::Streaming,
        ensures
            final(self).wf(),
            final(self).settled(),
            final(self).tool_catalog() == old(self).tool_catalog(),
            final(self).entries() == old(self).entries(),
            final(self).text_so_far() == old(self).text_so_far(),
            ({
                let recovered = malformed_tool_call(message@) && (old(self).open_call() matches Some(
                    c,
                ) && c.1.len() > 0);
                if recovered {
                    &&& final(self).error() is None
                    &&& turn_ended(
                        *old(self),
                        *final(self),
                        old(self).turn_text(),
                        old(self).turn_calls().push(old(self).open_call().unwrap()),
                    )
                } else {
                    &&& final(self).state() == Phase::Failed
                    &&& final(self).outcome() == Some(Err::<String, String>(message))
                }
            }),
    {
        if is_malformed_tool_call_error(message.as_str()) {
            if self.turn.recover_open_call() {
                self.end_turn();
                return;
            }
        }
        self.fail(message);
    }

    /// Moves on past the current tool call.
    fn advance(&mut self)
        requires
            old(self).next_call < old(self).pending@.len(),
            old(self).phase == Phase::ToolReady || old(self).phase == Phase::ToolRunning,
            !old(self).buffer.is_finished(),
            old(self).buffer.failure() is None,
        ensures
            final(self).wf(),
            final(self).settled(),
            final(self).tool_catalog() == old(self).tool_catalog(),
            final(self).state() == phase_after_tool(
                old(self).call_index(),
                old(self).calls_to_run().len(),
            ),
            final(self).state() == Phase::ToolReady ==> final(self).call_index() == old(
                self,
            ).call_index() + 1 && final(self).calls_to_run() == old(self).calls_to_run(),
            final(self).buffer == old(self).buffer,
            final(self).history == old(self).history,
            final(self).turn == old(self).turn,
            final(self).accumulated == old(self).accumulated,
    {
        let count = self.pending.len();
        self.next_call = self.next_call + 1;
        if self.next_call < count {
            self.phase = Phase::ToolReady;
        } else {
            self.pending = Vec::new();
            self.next_call = 0;
            self.phase = Phase::Streaming;
        }
    }

    /// Starts the current tool call: its start is logged, and its arguments
    /// are parsed and normalized. Where they parse, the call is logged as
    /// executing and handed out to run; where they do not, the parse failure
    /// is logged and answers the call in the conversation.
    pub fn begin_tool_call(&mut self) -> (r: ToolAction)
        requires
            old(self).wf(),
            old(self).state() == Phase::ToolReady,
        ensures
            final(self).wf(),
            final(self).settled(),
            final(self).tool_catalog() == old(self).tool_catalog(),
            final(self).error() is None,
            final(self).text_so_far() == old(self).text_so_far(),
            ({
                let c = old(self).calls_to_run()[old(self).call_index() as int];
                let e = final(self).entries();
                let n = old(self).entries().len() as int;
                &&& e.take(n as int) == old(self).entries()
                &&& tool_entry(
                    e[n as int],
                    StreamingEntryType::ToolCallStart,
                    ToolCallStatus::Starting,
                    c.1,
                    c.0,
                    c.2,
                    None,
                )
                &&& if arguments_parse(c.2) {
                    &&& e.len() == n + 2
                    &&& tool_entry(
                        e[n + 1],
                        StreamingEntryType::ToolCallStart,
                        ToolCallStatus::Executing,
                        c.1,
                        c.0,
                        c.2,
                        None,
                    )
                    &&& final(self).state() == Phase::ToolRunning
                    &&& final(self).call_index() == old(self).call_index()
                    &&& final(self).calls_to_run() == old(self).calls_to_run()
                    &&& final(self).conversation() == old(self).conversation()
                    &&& r matches ToolAction::Execute { name, arguments } && (name@ == c.1
                        && arguments_value(c.1, c.2, arguments))
                } else {
                    let x = e[n + 1].tool_call.unwrap().result.unwrap()@;
                    &&& e.len() == n + 2
                    &&& tool_entry(
                        e[n + 1],
                        StreamingEntryType::ToolCallError,
                        ToolCallStatus::Error,
                        c.1,
                        c.0,
                        c.2,
                        Some(x),
                    )
                    &&& x.take(parse_error_prefix().len() as int) == parse_error_prefix()
                    &&& tool_message(final(self).conversation().last(), c.0, x)
                    &&& final(self).conversation().drop_last() == old(self).conversation()
                    &&& final(self).state() == phase_after_tool(
                        old(self).call_index(),
                        old(self).calls_to_run().len(),
                    )
                    &&& r is Skipped
                }
            }),
    {
        let ghost n = self.buffer.log().len();
        let call = self.pending[self.next_call].duplicate();
        proof {
            assert(call@ == self.calls_to_run()[self.call_index() as int]);
        }
        self.buffer.append(
            StreamingEntry::tool_progress(
                StreamingEntryType::ToolCallStart,
                ToolCallStatus::Starting,
                call.function_name.clone(),
                call.id.clone(),
                call.arguments.clone(),
                None,
            ),
        );
        match parse_tool_arguments(call.function_name.as_str(), call.arguments.as_str()) {
            Ok(v) => {
                self.buffer.append(
                    StreamingEntry::tool_progress(
                        StreamingEntryType::ToolCallStart,
                        ToolCallStatus::Executing,
                        call.function_name.clone(),
                        call.id.clone(),
                        call.arguments.clone(),
                        None,
                    ),
                );
                self.phase = Phase::ToolRunning;
                proof {
                    assert(self.buffer.log().take(n as int) =~= old(self).entries());
                }
                ToolAction::Execute { name: call.function_name, arguments: v }
            },
            Err(msg) => {
                self.buffer.append(
                    StreamingEntry::tool_progress(
                        StreamingEntryType::ToolCallError,
                        ToolCallStatus::Error,
                        call.function_name.clone(),
                        call.id.clone(),
                        call.arguments.clone(),
                        Some(msg.clone()),
                    ),
                );
                self.history.push(
                    ChatMessage {
                        role: Role::Tool,
                        content: Some(msg),
                        tool_calls: Vec::new(),
                        tool_call_id: Some(call.id),
                    },
                );
                proof {
                    assert(self.buffer.log().take(n as int) =~= old(self).entries());
                    assert(self.history@.drop_last() =~= old(self).history@);
                }
                self.advance();
                ToolAction::Skipped
            },
        }
    }

    /// Takes in the result of the running tool call: success or failure is
    /// logged and answers the call in the conversation, and the session moves
    /// on to the next call or, after the last, to the next turn. A failed
    /// tool does not end the session.
    pub fn on_tool_result(&mut self, result: Result<String, String>)
        requires
            old(self).wf(),
            old(self).state() == Phase::ToolRunning,
        ensures
            final(self).wf(),
            final(self).settled(),
            final(self).tool_catalog() == old(self).tool_catalog(),
            tool_result_applied(*old(self), *final(self), result),
    {
        let call = self.pending[self.next_call].duplicate();
        proof {
            assert(call@ == self.calls_to_run()[self.call_index() as int]);
        }
        let (kind, status, text) = match result {
            Ok(t) => (StreamingEntryType::ToolCallResult, ToolCallStatus::Success, t),
            Err(err) => {
                let head = joined("Error executing tool ", call.function_name.as_str());
                let head = joined(head.as_str(), ": ");
                (
                    StreamingEntryType::ToolCallError,
                    ToolCallStatus::Error,
                    joined(head.as_str(), err.as_str()),
                )
            },
        };
        self.buffer.append(
            StreamingEntry::tool_progress(
                kind,
                status,
                call.function_name.clone(),
                call.id.clone(),
                call.arguments.clone(),
                Some(text.clone()),
            ),
        );
        self.history.push(
            ChatMessage {
                role: Role::Tool,
                content: Some(text),
                tool_calls: Vec::new(),
                tool_call_id: Some(call.id),
            },
        );
        self.advance();
    }

    /// The session's outcome: none while it runs; then its error if it
    /// failed, else the text of every turn.
    pub fn completion_result(&self) -> (r: Option<Result<String, String>>)
        ensures
            r == self.outcome(),
    {
        if !self.buffer.is_complete() {
            return None;
        }
        match self.buffer.get_error() {
            Some(e) => Some(Err(e)),
            None => match &self.final_content {
                Some(t) => Some(Ok(t.clone())),
                None => None,
            },
        }
    }

    pub fn is_complete(&self) -> (r: bool)
        ensures
            r == self.completed(),
    {
        self.buffer.is_complete()
    }

    pub fn get_error(&self) -> (r: Option<String>)
        ensures
            r == self.error(),
    {
        self.buffer.get_error()
    }

    /// The session's entry log, for subscribers to read.
    pub fn entry_log(&self) -> (r: &EntryBuffer)
        ensures
            *r == self.log(),
            r.log() == self.entries(),
            r.is_finished() == self.completed(),
            r.failure() == self.error(),
    {
        &self.buffer
    }

    /// A reader of the entry log that starts with the first entry.
    pub fn subscribe(&self) -> (r: Subscription)
        ensures
            r.position() == 0,
            self.log().follows(r),
    {
        self.buffer.subscribe()
    }

    /// Every entry logged so far, in order.
    pub fn get_all_events(&self) -> (r: Vec<StreamingEntry>)
        ensures
            r@ == self.entries(),
    {
        self.buffer.all_entries()
    }
}

/// What taking in `delta` does to a streaming session, from `before` to
/// `after`: its text is logged and kept, its fragments are merged, and a
/// terminal signal ends the turn.
pub open spec fn delta_applied(before: OngoingPrompt, after: OngoingPrompt, delta: Delta) -> bool {
    let c = piece(delta.content);
    let (d, o) = after_fragments(before.turn_calls(), before.open_call(), delta.tool_calls@);
    let text = before.turn_text() + c;
    &&& after.error() is None
    &&& after.text_so_far() == before.text_so_far() + c
    &&& c.len() == 0 ==> after.entries() == before.entries()
    &&& c.len() > 0 ==> {
        &&& after.entries() == before.entries().push(after.entries().last())
        &&& content_entry(c, after.entries().last())
    }
    &&& match delta.finish_reason {
        None => {
            &&& after.state() == Phase::Streaming
            &&& after.turn_text() == text
            &&& after.turn_calls() == d
            &&& after.open_call() == o
            &&& after.conversation() == before.conversation()
        },
        Some(_) => turn_ended(before, after, text, closed_calls(d, o)),
    }
}

/// What taking in the running tool call's `result` does, from `before` to
/// `after`: success or failure is logged and answers the call in the
/// conversation, and the session moves on to the next call or, after the
/// last, to the next turn.
pub open spec fn tool_result_applied(
    before: OngoingPrompt,
    after: OngoingPrompt,
    result: Result<String, String>,
) -> bool {
    let c = before.calls_to_run()[before.call_index() as int];
    let e = after.entries();
    let text = match result {
        Ok(t) => t@,
        Err(err) => tool_failure_text(c.1, err@),
    };
    &&& after.error() is None
    &&& after.text_so_far() == before.text_so_far()
    &&& after.state() == phase_after_tool(before.call_index(), before.calls_to_run().len())
    &&& after.state() == Phase::ToolReady ==> after.call_index() == before.call_index() + 1
    &&& e == before.entries().push(e.last())
    &&& match result {
        Ok(_) => tool_entry(
            e.last(),
            StreamingEntryType::ToolCallResult,
            ToolCallStatus::Success,
            c.1,
            c.0,
            c.2,
            Some(text),
        ),
        Err(_) => tool_entry(
            e.last(),
            StreamingEntryType::ToolCallError,
            ToolCallStatus::Error,
            c.1,
            c.0,
            c.2,
            Some(text),
        ),
    }
    &&& after.conversation() == before.conversation().push(after.conversation().last())
    &&& tool_message(after.conversation().last(), c.0, text)
}

/// How a turn that produced `text` and completed `calls` has ended, from
/// `before` to `after`.
pub open spec fn turn_ended(
    before: OngoingPrompt,
    after: OngoingPrompt,
    text: Seq<char>,
    calls: Seq<CallView>,
) -> bool {
    &&& after.state() == phase_after_turn(calls)
    &&& after.state() == Phase::Done ==> {
        &&& after.final_text() matches Some(t) && t@ == after.text_so_far()
        &&& after.conversation() == before.conversation()
    }
    &&& after.state() == Phase::ToolReady ==> {
        &&& after.calls_to_run() == calls
        &&& after.call_index() == 0
        &&& after.conversation() == before.conversation().push(after.conversation().last())
        &&& assistant_message(after.conversation().last(), text, calls)
    }
}

/// A copy of each call, in order.
fn copy_calls(calls: &Vec<ToolCall>) -> (r: Vec<ToolCall>)
    ensures
        call_views(r@) == call_views(calls@),
{
    let mut r: Vec<ToolCall> = Vec::new();
    let mut i: usize = 0;
    while i < calls.len()
        invariant
            i <= calls@.len(),
            r@.len() == i,
            forall|j: int| 0 <= j < i ==> #[trigger] r@[j]@ == calls@[j]@,
        decreases calls@.len() - i,
    {
        r.push(calls[i].duplicate());
        i = i + 1;
    }
    assert(call_views(r@) =~= call_views(calls@));
    r
}

/// Waiting for completion is idempotent. Every event that changes a session
/// requires it to be running, so once it has completed what it recorded is
/// fixed, and every wait returns its error if it failed, else its final text.
pub proof fn lemma_completion_is_stable(p: OngoingPrompt)
    requires
        p.wf(),
        p.completed(),
    ensures
        p.outcome() == match p.error() {
            Some(e) => Some(Err::<String, String>(e)),
            None => Some(Ok::<String, String>(p.final_text().unwrap())),
        },
{
}

/// A turn that streams only text and then its terminal signal ends the
/// session: it completes no tool call, and the answer that every completion
/// wait returns is the text of every turn, this one's last.
pub proof fn lemma_text_only_turn_is_done(before: OngoingPrompt, after: OngoingPrompt, delta: Delta)
    requires
        before.state() == Phase::Streaming,
        before.turn_calls().len() == 0,
        before.open_call() is None,
        delta.tool_calls@.len() == 0,
        delta.finish_reason is Some,
        delta_applied(before, after, delta),
        after.settled(),
    ensures
        after.state() == Phase::Done,
        after.completed(),
        after.outcome() matches Some(Ok(t)) && t@ == before.text_so_far() + piece(delta.content),
{
    assert(delta.tool_calls@ =~= Seq::<ToolCallFragment>::empty());
}

/// A tool call that fails does not end the session: the failure is logged
/// as a tool-call error, no session error is recorded, and the next call of
/// the turn starts or, after the last, the next turn does.
pub proof fn lemma_tool_failure_keeps_running(
    before: OngoingPrompt,
    after: OngoingPrompt,
    error: String,
)
    requires
        before.wf(),
        before.state() == Phase::ToolRunning,
        tool_result_applied(before, after, Err(error)),
        after.settled(),
    ensures
        after.state() == Phase::ToolReady || after.state() == Phase::Streaming,
        !after.completed(),
        after.error() is None,
        after.entries().last().entry_type == StreamingEntryType::ToolCallError,
{
}

} // verus!
