//! Accumulation of one turn's streamed output: generated text, and tool
//! calls whose id, name and arguments arrive in fragments.
use vstd::prelude::*;
use vstd::string::*;
use crate::text::same_text;

verus! {

/// The identity, function name and argument text of a tool call.
pub type CallView = (Seq<char>, Seq<char>, Seq<char>);

/// A tool call the model asked for.
#[derive(Debug, Clone)]
pub struct ToolCall {
    pub id: String,
    pub function_name: String,
    pub arguments: String,
}

impl View for ToolCall {
    type V = CallView;

    open spec fn view(&self) -> CallView {
        (self.id@, self.function_name@, self.arguments@)
    }
}

impl ToolCall {
    /// A copy of this call.
    pub fn duplicate(&self) -> (r: Self)
        ensures
            r@ == self@,
    {
        ToolCall {
            id: self.id.clone(),
            function_name: self.function_name.clone(),
            arguments: self.arguments.clone(),
        }
    }
}

/// One streamed piece of a tool call: an id other than that of the call in
/// progress starts a new call; the name and argument pieces extend the call
/// in progress.
#[derive(Debug, Clone)]
pub struct ToolCallFragment {
    pub id: Option<String>,
    pub name: Option<String>,
    pub arguments: Option<String>,
}

/// The text of an optional piece, empty where there is none.
pub open spec fn piece(p: Option<String>) -> Seq<char> {
    match p {
        Some(s) => s@,
        None => Seq::empty(),
    }
}

/// The calls completed so far and the call in progress, after `f`.
pub open spec fn after_fragment(
    done: Seq<CallView>,
    current: Option<CallView>,
    f: ToolCallFragment,
) -> (Seq<CallView>, Option<CallView>) {
    let (done1, current1) = match f.id {
        Some(id) => if current matches Some(c) && c.0 == id@ {
            (done, current)
        } else {
            (
                match current {
                    Some(c) => done.push(c),
                    None => done,
                },
                Some((id@, Seq::<char>::empty(), Seq::<char>::empty())),
            )
        },
        None => (done, current),
    };
    (
        done1,
        match current1 {
            Some(c) => Some((c.0, c.1 + piece(f.name), c.2 + piece(f.arguments))),
            None => None,
        },
    )
}

/// The calls completed and in progress after a sequence of fragments.
pub open spec fn after_fragments(
    done: Seq<CallView>,
    current: Option<CallView>,
    fs: Seq<ToolCallFragment>,
) -> (Seq<CallView>, Option<CallView>)
    decreases fs.len(),
{
    if fs.len() == 0 {
        (done, current)
    } else {
        let (d, c) = after_fragments(done, current, fs.drop_last());
        after_fragment(d, c, fs.last())
    }
}

/// A turn's generated text and its tool calls, completed and in progress.
#[derive(Debug)]
pub struct TurnAccumulator {
    text: String,
    completed: Vec<ToolCall>,
    current: Option<ToolCall>,
}

/// The views of a sequence of calls.
pub open spec fn call_views(calls: Seq<ToolCall>) -> Seq<CallView> {
    calls.map_values(|c: ToolCall| c@)
}

impl TurnAccumulator {
    pub closed spec fn turn_text(&self) -> Seq<char> {
        self.text@
    }

    pub closed spec fn completed_calls(&self) -> Seq<CallView> {
        call_views(self.completed@)
    }

    pub closed spec fn open_call(&self) -> Option<CallView> {
        match self.current {
            Some(c) => Some(c@),
            None => None,
        }
    }

    /// Nothing received yet.
    pub fn new() -> (r: Self)
        ensures
            r.turn_text() == Seq::<char>::empty(),
            r.completed_calls() == Seq::<CallView>::empty(),
            r.open_call() is None,
    {
        let r = TurnAccumulator { text: String::new(), completed: Vec::new(), current: None };
        assert(r.completed_calls() =~= Seq::<CallView>::empty());
        r
    }

    /// Appends a fragment of generated text.
    pub fn push_content(&mut self, text: &str)
        ensures
            final(self).turn_text() == old(self).turn_text() + text@,
            final(self).completed_calls() == old(self).completed_calls(),
            final(self).open_call() == old(self).open_call(),
    {
        self.text.append(text);
    }

    /// Merges one tool-call fragment.
    pub fn push_fragment(&mut self, f: &ToolCallFragment)
        ensures
            final(self).turn_text() == old(self).turn_text(),
            (final(self).completed_calls(), final(self).open_call()) == after_fragment(
                old(self).completed_calls(),
                old(self).open_call(),
                *f,
            ),
    {
        let same = match (&f.id, &self.current) {
            (Some(id), Some(c)) => same_text(id.as_str(), c.id.as_str()),
            _ => false,
        };
        match &f.id {
            Some(id) if !same => {
                let prev = self.current.take();
                match prev {
                    Some(c) => {
                        self.completed.push(c);
                        assert(call_views(self.completed@) =~= call_views(
                            old(self).completed@,
                        ).push(c@));
                    },
                    None => {},
                }
                self.current = Some(
                    ToolCall { id: id.clone(), function_name: String::new(), arguments: String::new() },
                );
            },
            _ => {},
        }
        match &mut self.current {
            Some(c) => {
                match &f.name {
                    Some(n) => c.function_name.append(n.as_str()),
                    None => {},
                }
                match &f.arguments {
                    Some(a) => c.arguments.append(a.as_str()),
                    None => {},
                }
            },
            None => {},
        }
    }

    /// The terminal signal: the call in progress, if any, is complete.
    pub fn flush(&mut self)
        ensures
            final(self).turn_text() == old(self).turn_text(),
            final(self).open_call() is None,
            final(self).completed_calls() == match old(self).open_call() {
                Some(c) => old(self).completed_calls().push(c),
                None => old(self).completed_calls(),
            },
    {
        let prev = self.current.take();
        match prev {
            Some(c) => {
                self.completed.push(c);
                assert(call_views(self.completed@) =~= call_views(old(self).completed@).push(c@));
            },
            None => {},
        }
    }

    /// The stream ended without a terminal signal: the call in progress is dropped.
    pub fn discard_open_call(&mut self)
        ensures
            final(self).turn_text() == old(self).turn_text(),
            final(self).completed_calls() == old(self).completed_calls(),
            final(self).open_call() is None,
    {
        self.current = None;
    }

    /// Recovery from a malformed tool-call response: a call in progress with
    /// a name is kept as complete, and then `true` is returned; otherwise the
    /// call in progress is dropped and `false` is returned.
    pub fn recover_open_call(&mut self) -> (r: bool)
        ensures
            final(self).turn_text() == old(self).turn_text(),
            final(self).open_call() is None,
            r == (old(self).open_call() matches Some(c) && c.1.len() > 0),
            final(self).completed_calls() == if r {
                old(self).completed_calls().push(old(self).open_call().unwrap())
            } else {
                old(self).completed_calls()
            },
    {
        let prev = self.current.take();
        match prev {
            Some(c) => {
                if c.function_name.as_str().is_empty() {
                    false
                } else {
                    self.completed.push(c);
                    assert(call_views(self.completed@) =~= call_views(old(self).completed@).push(
                        c@,
                    ));
                    true
                }
            },
            None => false,
        }
    }

    /// The turn's generated text.
    pub fn text(&self) -> (r: &String)
        ensures
            r@ == self.turn_text(),
    {
        &self.text
    }

    /// The completed calls, in the order they were first seen.
    pub fn completed(&self) -> (r: &Vec<ToolCall>)
        ensures
            call_views(r@) == self.completed_calls(),
    {
        &self.completed
    }

    /// The turn's text and completed calls.
    pub fn into_parts(self) -> (r: (String, Vec<ToolCall>))
        ensures
            r.0@ == self.turn_text(),
            call_views(r.1@) == self.completed_calls(),
    {
        (self.text, self.completed)
    }
}

} // verus!
