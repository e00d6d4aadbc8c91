//! Reading a signed 64-bit integer from decimal text.
use vstd::prelude::*;
use vstd::string::*;

verus! {

pub open spec fn is_digit(c: char) -> bool {
    '0' <= c && c <= '9'
}

pub open spec fn digit_value(c: char) -> int {
    c as int - '0' as int
}

/// The value of a sequence of decimal digits.
pub open spec fn digits_value(s: Seq<char>) -> int
    decreases s.len(),
{
    if s.len() == 0 {
        0
    } else {
        digits_value(s.drop_last()) * 10 + digit_value(s.last())
    }
}

/// The digits after an optional sign, and whether the sign is `-`.
pub open spec fn unsigned_part(s: Seq<char>) -> (bool, Seq<char>) {
    if s.len() > 0 && s[0] == '-' {
        (true, s.drop_first())
    } else if s.len() > 0 && s[0] == '+' {
        (false, s.drop_first())
    } else {
        (false, s)
    }
}

/// The integer that `s` writes: an optional `+` or `-`, then one or more
/// decimal digits, with a value that fits in an `i64`.
pub open spec fn integer_text(s: Seq<char>) -> Option<int> {
    let (neg, body) = unsigned_part(s);
    if body.len() > 0 && (forall|i: int| 0 <= i < body.len() ==> is_digit(#[trigger] body[i])) {
        let v = if neg {
            -digits_value(body)
        } else {
            digits_value(body)
        };
        if i64::MIN <= v && v <= i64::MAX {
            Some(v)
        } else {
            None
        }
    } else {
        None
    }
}

proof fn lemma_digits_nonneg(s: Seq<char>)
    requires
        forall|i: int| 0 <= i < s.len() ==> is_digit(#[trigger] s[i]),
    ensures
        digits_value(s) >= 0,
    decreases s.len(),
{
    if s.len() > 0 {
        lemma_digits_nonneg(s.drop_last());
    }
}

/// The integer written in `s`, as `str::parse::<i64>` reads it.
pub fn parse_i64(s: &str) -> (r: Option<i64>)
    ensures
        r matches Some(n) ==> integer_text(s@) == Some(n as int),
        r is None ==> integer_text(s@) is None,
{
    let len = s.unicode_len();
    let mut start: usize = 0;
    let mut neg = false;
    if len > 0 {
        let c = s.get_char(0);
        if c == '-' {
            neg = true;
            start = 1;
        } else if c == '+' {
            start = 1;
        }
    }
    let ghost body = s@.subrange(start as int, len as int);
    proof {
        assert(unsigned_part(s@).0 == neg);
        assert(unsigned_part(s@).1 =~= body);
    }
    if start == len {
        return None;
    }
    // Past this bound the value fits in no i64, whatever its sign.
    let limit: u64 = 9223372036854775808;
    let mut acc: u64 = 0;
    let mut over = false;
    let mut i: usize = start;
    while i < len
        invariant
            len == s@.len(),
            start <= i <= len,
            start < len,
            body == s@.subrange(start as int, len as int),
            unsigned_part(s@).0 == neg,
            unsigned_part(s@).1 == body,
            limit == 9223372036854775808u64,
            forall|k: int| 0 <= k < i - start ==> is_digit(#[trigger] body[k]),
            !over ==> acc as int == digits_value(body.take(i - start)),
            !over ==> acc <= limit,
            over ==> digits_value(body.take(i - start)) > limit,
        decreases len - i,
    {
        let c = s.get_char(i);
        if c < '0' || c > '9' {
            proof {
                assert(body[i - start] == c);
                assert(!is_digit(body[(i - start) as int]));
                assert(!(forall|m: int| 0 <= m < body.len() ==> is_digit(#[trigger] body[m])));
            }
            return None;
        }
        let d = (c as u32 - '0' as u32) as u64;
        assert(d <= 9);
        assert(limit == 9223372036854775808u64);
        let ghost k = (i - start) as int;
        proof {
            assert(body[k] == c);
            assert(body.take(k + 1).drop_last() =~= body.take(k));
            assert(body.take(k + 1).last() == c);
            assert(digits_value(body.take(k + 1)) == digits_value(body.take(k)) * 10 + d);
        }
        if !over {
            if acc > (limit - d) / 10 {
                over = true;
                proof {
                    assert(acc * 10 + d > limit) by (nonlinear_arith)
                        requires acc > (limit - d) / 10, d <= 9, limit == 9223372036854775808u64;
                }
            } else {
                proof {
                    assert(acc * 10 + d <= limit) by (nonlinear_arith)
                        requires acc <= (limit - d) / 10, d <= 9, limit == 9223372036854775808u64;
                }
                acc = acc * 10 + d;
            }
        } else {
            proof {
                let ghost t = body.take(k);
                assert forall|m: int| 0 <= m < t.len() implies is_digit(#[trigger] t[m]) by {
                    assert(t[m] == body[m]);
                }
                lemma_digits_nonneg(t);
                assert(digits_value(t) * 10 + d > limit) by (nonlinear_arith)
                    requires digits_value(t) > limit, d >= 0;
            }
        }
        i = i + 1;
    }
    proof {
        assert(body.take(len - start) =~= body);
        assert forall|m: int| 0 <= m < body.len() implies is_digit(#[trigger] body[m]) by {}
    }
    if over {
        return None;
    }
    if neg {
        if acc == limit {
            Some(-9223372036854775807i64 - 1)
        } else {
            Some(-(acc as i64))
        }
    } else {
        if acc == limit {
            None
        } else {
            Some(acc as i64)
        }
    }
}

} // verus!
