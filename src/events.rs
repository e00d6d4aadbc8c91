//! Reading a JSON-RPC reply out of a server-sent event stream: the reply is
//! the payload of the first `data: ` line that holds JSON.
use vstd::prelude::*;
use vstd::string::*;
use crate::args::{is_json_text, json_value_of, parse_json};
use crate::text::same_text;

verus! {

/// The position of the first line feed of `s`, or its length where it has none.
pub open spec fn first_newline(s: Seq<char>) -> nat
    decreases s.len(),
{
    if s.len() == 0 {
        0
    } else if s[0] == '\n' {
        0
    } else {
        1 + first_newline(s.drop_first())
    }
}

/// The lines of `s`, as `str::lines` splits them: each ends at a line feed,
/// which is dropped with a carriage return just before it; a last line
/// without a line feed counts only where it is not empty.
pub open spec fn lines_of(s: Seq<char>) -> Seq<Seq<char>>
    decreases s.len(),
{
    if s.len() == 0 {
        Seq::empty()
    } else {
        let i = first_newline(s) as int;
        if i >= s.len() {
            seq![s]
        } else {
            let line = s.take(i);
            let line = if line.len() > 0 && line.last() == '\r' {
                line.drop_last()
            } else {
                line
            };
            seq![line] + lines_of(s.skip(i + 1))
        }
    }
}

/// The payload of an event line.
pub open spec fn event_payload(line: Seq<char>) -> Option<Seq<char>> {
    if line.len() >= 6 && line.take(6) == "data: "@ {
        Some(line.skip(6))
    } else {
        None
    }
}

/// An event line whose payload is JSON.
pub open spec fn json_event_line(line: Seq<char>) -> bool {
    event_payload(line) matches Some(p) && is_json_text(p)
}

/// Line `k` of `lines` is the first that is an event line holding JSON.
pub open spec fn first_json_line(lines: Seq<Seq<char>>, k: int) -> bool {
    &&& json_event_line(lines[k])
    &&& forall|j: int| 0 <= j < k ==> !json_event_line(#[trigger] lines[j])
}

proof fn lemma_first_newline(s: Seq<char>, m: int)
    requires
        0 <= m <= s.len(),
        forall|k: int| 0 <= k < m ==> s[k] != '\n',
        m == s.len() || s[m] == '\n',
    ensures
        first_newline(s) == m,
    decreases s.len(),
{
    if s.len() > 0 && m > 0 {
        lemma_first_newline(s.drop_first(), m - 1);
    }
}

/// The payload of the line `line`, where it is an event line.
fn payload_of(line: &str) -> (r: Option<&str>)
    ensures
        r matches Some(p) ==> event_payload(line@) == Some(p@),
        r is None ==> event_payload(line@) is None,
{
    let n = line.unicode_len();
    if n < 6 {
        return None;
    }
    let head = line.substring_char(0, 6);
    if same_text(head, "data: ") {
        Some(line.substring_char(6, n))
    } else {
        None
    }
}

/// The reply in an event stream: the payload, parsed, of its first event
/// line that holds JSON.
pub fn first_event_json(text: &str) -> (r: Option<serde_json::Value>)
    ensures
        r is Some <==> exists|k: int|
            0 <= k < lines_of(text@).len() && json_event_line(#[trigger] lines_of(text@)[k]),
        r matches Some(v) ==> exists|k: int|
            0 <= k < lines_of(text@).len() && first_json_line(lines_of(text@), k) && v
                == json_value_of(event_payload(lines_of(text@)[k]).unwrap()),
{
    let n = text.unicode_len();
    let mut start: usize = 0;
    let ghost mut seen: Seq<Seq<char>> = Seq::empty();
    assert(text@.skip(0) =~= text@);
    assert(lines_of(text@) =~= seen + lines_of(text@.skip(0)));
    while start < n
        invariant
            n == text@.len(),
            start <= n,
            lines_of(text@) == seen + lines_of(text@.skip(start as int)),
            forall|k: int| 0 <= k < seen.len() ==> !json_event_line(#[trigger] seen[k]),
        decreases n - start,
    {
        let ghost rest = text@.skip(start as int);
        let mut end: usize = start;
        while end < n && text.get_char(end) != '\n'
            invariant
                n == text@.len(),
                start <= end <= n,
                forall|k: int| start <= k < end ==> text@[k] != '\n',
            decreases n - end,
        {
            end = end + 1;
        }
        proof {
            assert forall|k: int| 0 <= k < end - start implies rest[k] != '\n' by {
                assert(rest[k] == text@[start + k]);
            }
            if end < n {
                assert(rest[end - start] == text@[end as int]);
            }
            lemma_first_newline(rest, end - start);
            assert(rest.take(end - start) =~= text@.subrange(start as int, end as int));
            if end < n {
                assert(rest.skip(end - start + 1) =~= text@.skip(end + 1));
            } else {
                assert(rest =~= text@.subrange(start as int, end as int));
            }
        }
        let mut stop = end;
        if end < n && stop > start && text.get_char(stop - 1) == '\r' {
            stop = stop - 1;
        }
        let line = text.substring_char(start, stop);
        let ghost lv = line@;
        proof {
            if end < n {
                let t = rest.take(end - start);
                if t.len() > 0 && t.last() == '\r' {
                    assert(t.drop_last() =~= lv);
                } else {
                    assert(t =~= lv);
                }
                assert(lines_of(rest) == seq![lv] + lines_of(text@.skip(end + 1)));
            } else {
                assert(lines_of(rest) == seq![lv]);
            }
        }
        match payload_of(line) {
            Some(p) => match parse_json(p) {
                Ok(v) => {
                    proof {
                        let k = seen.len() as int;
                        assert(lines_of(text@)[k] == lv);
                        assert forall|j: int| 0 <= j < k implies !json_event_line(
                            #[trigger] lines_of(text@)[j],
                        ) by {
                            assert(lines_of(text@)[j] == seen[j]);
                        }
                        assert(first_json_line(lines_of(text@), k));
                    }
                    return Some(v);
                },
                Err(_) => {},
            },
            None => {},
        }
        proof {
            let seen1 = seen.push(lv);
            if end < n {
                assert(seen + (seq![lv] + lines_of(text@.skip(end + 1))) =~= seen1 + lines_of(
                    text@.skip(end + 1),
                ));
            } else {
                assert(text@.skip(n as int) =~= Seq::<char>::empty());
                assert(seen + seq![lv] =~= seen1 + lines_of(text@.skip(n as int)));
            }
            seen = seen1;
        }
        if end < n {
            start = end + 1;
        } else {
            start = n;
        }
    }
    proof {
        assert(text@.skip(start as int) =~= Seq::<char>::empty());
        assert(lines_of(text@) =~= seen);
    }
    None
}

} // verus!
