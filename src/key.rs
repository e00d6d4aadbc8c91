//! Coalescing keys: what a request for a completion is about, written as the
//! text that the registry is keyed by. Distinct keys never share a text.
use vstd::prelude::*;
use vstd::string::*;

verus! {

/// What a request for a completion is about.
#[derive(Debug, Clone)]
pub enum CoalescingKey {
    /// The assistant's answer to message `message_id` of chat `chat_id`.
    ChatTurn { chat_id: String, message_id: String },
    /// The summary of topic `topic_id`.
    TopicSummary { topic_id: u64 },
}

/// The character of a decimal digit.
pub open spec fn digit_char(d: nat) -> char {
    seq!['0', '1', '2', '3', '4', '5', '6', '7', '8', '9'][d as int]
}

/// The decimal digits of `n`, without leading zeros.
pub open spec fn decimal(n: nat) -> Seq<char>
    decreases n,
{
    if n < 10 {
        seq![digit_char(n)]
    } else {
        decimal(n / 10).push(digit_char(n % 10))
    }
}

/// The text a key is registered under.
pub open spec fn key_text(k: CoalescingKey) -> Seq<char> {
    match k {
        CoalescingKey::ChatTurn { chat_id, message_id } => "chat/"@ + chat_id@ + "/"@
            + message_id@,
        CoalescingKey::TopicSummary { topic_id } => "summary/"@ + decimal(topic_id as nat),
    }
}

/// The text of digit `d`.
fn digit_text(d: u64) -> (r: &'static str)
    requires
        d < 10,
    ensures
        r@ == seq![digit_char(d as nat)],
{
    proof {
        reveal_strlit("0");
        reveal_strlit("1");
        reveal_strlit("2");
        reveal_strlit("3");
        reveal_strlit("4");
        reveal_strlit("5");
        reveal_strlit("6");
        reveal_strlit("7");
        reveal_strlit("8");
        reveal_strlit("9");
    }
    let r = if d == 0 {
        "0"
    } else if d == 1 {
        "1"
    } else if d == 2 {
        "2"
    } else if d == 3 {
        "3"
    } else if d == 4 {
        "4"
    } else if d == 5 {
        "5"
    } else if d == 6 {
        "6"
    } else if d == 7 {
        "7"
    } else if d == 8 {
        "8"
    } else {
        "9"
    };
    assert(r@ =~= seq![digit_char(d as nat)]);
    r
}

/// Appends the decimal digits of `n`.
fn write_decimal(n: u64, out: &mut String)
    ensures
        final(out)@ == old(out)@ + decimal(n as nat),
    decreases n,
{
    if n >= 10 {
        write_decimal(n / 10, out);
    }
    out.append(digit_text(n % 10));
    proof {
        if n >= 10 {
            assert(decimal(n as nat) == decimal((n / 10) as nat).push(digit_char((n % 10) as nat)));
        }
    }
}

impl CoalescingKey {
    /// The text this key is registered under.
    pub fn key_text(&self) -> (r: String)
        ensures
            r@ == key_text(*self),
    {
        match self {
            CoalescingKey::ChatTurn { chat_id, message_id } => {
                let mut r = String::from_str("chat/");
                r.append(chat_id.as_str());
                r.append("/");
                r.append(message_id.as_str());
                r
            },
            CoalescingKey::TopicSummary { topic_id } => {
                let mut r = String::from_str("summary/");
                write_decimal(*topic_id, &mut r);
                r
            },
        }
    }
}

proof fn lemma_decimal_len(n: nat)
    ensures
        decimal(n).len() >= 1,
        n >= 10 ==> decimal(n).len() >= 2,
    decreases n,
{
    if n >= 10 {
        lemma_decimal_len(n / 10);
    }
}

proof fn lemma_decimal_injective(a: nat, b: nat)
    requires
        decimal(a) == decimal(b),
    ensures
        a == b,
    decreases a,
{
    lemma_decimal_len(a);
    lemma_decimal_len(b);
    if a >= 10 && b >= 10 {
        assert(decimal(a).drop_last() =~= decimal(a / 10));
        assert(decimal(b).drop_last() =~= decimal(b / 10));
        lemma_decimal_injective(a / 10, b / 10);
        assert(decimal(a).last() == digit_char(a % 10));
        assert(decimal(b).last() == digit_char(b % 10));
    } else if a < 10 && b < 10 {
        assert(decimal(a)[0] == digit_char(a));
        assert(decimal(b)[0] == digit_char(b));
    }
}

/// `s` holds no `/`.
pub open spec fn no_slash(s: Seq<char>) -> bool {
    forall|i: int| 0 <= i < s.len() ==> s[i] != '/'
}

/// A key whose ids hold no `/` (as identifiers such as UUIDs do not).
pub open spec fn plain_ids(k: CoalescingKey) -> bool {
    match k {
        CoalescingKey::ChatTurn { chat_id, message_id: _ } => no_slash(chat_id@),
        CoalescingKey::TopicSummary { .. } => true,
    }
}

/// `a` and `b` are about the same thing: of one kind, with the same ids.
pub open spec fn same_key(a: CoalescingKey, b: CoalescingKey) -> bool {
    match (a, b) {
        (
            CoalescingKey::ChatTurn { chat_id: c1, message_id: m1 },
            CoalescingKey::ChatTurn { chat_id: c2, message_id: m2 },
        ) => c1@ == c2@ && m1@ == m2@,
        (
            CoalescingKey::TopicSummary { topic_id: t1 },
            CoalescingKey::TopicSummary { topic_id: t2 },
        ) => t1 == t2,
        _ => false,
    }
}

/// Keys never collide: two keys whose chat ids hold no `/` have the same
/// text only where they are about the same thing.
pub proof fn lemma_key_text_injective(a: CoalescingKey, b: CoalescingKey)
    requires
        plain_ids(a),
        plain_ids(b),
        key_text(a) == key_text(b),
    ensures
        same_key(a, b),
{
    reveal_strlit("chat/");
    reveal_strlit("summary/");
    reveal_strlit("/");
    let ta = key_text(a);
    match (a, b) {
        (
            CoalescingKey::ChatTurn { chat_id: c1, message_id: m1 },
            CoalescingKey::ChatTurn { chat_id: c2, message_id: m2 },
        ) => {
            let s1 = c1@ + "/"@ + m1@;
            let s2 = c2@ + "/"@ + m2@;
            assert(ta.skip(5) =~= s1);
            assert(key_text(b).skip(5) =~= s2);
            assert(s1[c1@.len() as int] == '/');
            assert(s2[c2@.len() as int] == '/');
            if c1@.len() < c2@.len() {
                assert(s2[c1@.len() as int] == c2@[c1@.len() as int]);
            } else if c2@.len() < c1@.len() {
                assert(s1[c2@.len() as int] == c1@[c2@.len() as int]);
            }
            assert(c1@ =~= s1.take(c1@.len() as int));
            assert(c2@ =~= s2.take(c2@.len() as int));
            assert(m1@ =~= s1.skip(c1@.len() as int + 1));
            assert(m2@ =~= s2.skip(c2@.len() as int + 1));
            assert(c1@ == c2@ && m1@ == m2@);
        },
        (
            CoalescingKey::TopicSummary { topic_id: t1 },
            CoalescingKey::TopicSummary { topic_id: t2 },
        ) => {
            assert(ta.skip(8) =~= decimal(t1 as nat));
            assert(key_text(b).skip(8) =~= decimal(t2 as nat));
            lemma_decimal_injective(t1 as nat, t2 as nat);
        },
        (CoalescingKey::ChatTurn { .. }, CoalescingKey::TopicSummary { .. }) => {
            assert(ta[0] == 'c');
            assert(key_text(b)[0] == 's');
        },
        (CoalescingKey::TopicSummary { .. }, CoalescingKey::ChatTurn { .. }) => {
            assert(ta[0] == 's');
            assert(key_text(b)[0] == 'c');
        },
    }
}

} // verus!
