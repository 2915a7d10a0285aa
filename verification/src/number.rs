use vstd::prelude::*;

use crate::text::{decimal_text, digit_char};

verus! {

/// Whether `c` is an ASCII decimal digit.
pub open spec fn is_decimal_digit(c: char) -> bool {
    '0' <= c && c <= '9'
}

/// The value of one decimal digit.
pub open spec fn digit_value(c: char) -> int {
    (c as int) - ('0' as int)
}

/// Whether every character of `s` is a decimal digit.
pub open spec fn all_decimal_digits(s: Seq<char>) -> bool {
    forall|i: int| 0 <= i < s.len() ==> is_decimal_digit(#[trigger] s[i])
}

/// The number that the decimal digits `s` spell, most significant first.
pub open spec fn decimal_value(s: Seq<char>) -> nat
    decreases s.len(),
{
    if s.len() == 0 {
        0
    } else {
        (decimal_value(s.drop_last()) * 10 + digit_value(s.last())) as nat
    }
}

/// The sign and the digits of an integer literal: an optional leading `+`
/// or `-`, then the rest.
pub open spec fn split_sign(s: Seq<char>) -> (bool, Seq<char>) {
    if s.len() > 0 && s[0] == '-' {
        (true, s.skip(1))
    } else if s.len() > 0 && s[0] == '+' {
        (false, s.skip(1))
    } else {
        (false, s)
    }
}

/// The integer that `s` spells in the syntax that `i32::from_str` accepts
/// (an optional sign, then at least one decimal digit), if it spells one.
pub open spec fn integer_text_value(s: Seq<char>) -> Option<int> {
    let (neg, body) = split_sign(s);
    if body.len() > 0 && all_decimal_digits(body) {
        Some(if neg { -decimal_value(body) } else { decimal_value(body) as int })
    } else {
        None
    }
}

/// What parsing `s` as an `i32` gives: the value, when `s` spells an
/// integer that fits in an `i32`.
pub open spec fn i32_from_text(s: Seq<char>) -> Option<i32> {
    match integer_text_value(s) {
        Some(v) => if i32::MIN <= v && v <= i32::MAX {
            Some(v as i32)
        } else {
            None
        },
        None => None,
    }
}

proof fn lemma_decimal_value_prefix_monotone(s: Seq<char>, i: int, j: int)
    requires
        0 <= i <= j <= s.len(),
        all_decimal_digits(s),
    ensures
        decimal_value(s.take(i)) <= decimal_value(s.take(j)),
    decreases j - i,
{
    if i < j {
        lemma_decimal_value_prefix_monotone(s, i, j - 1);
        assert(s.take(j).drop_last() =~= s.take(j - 1));
        assert(is_decimal_digit(s[j - 1]));
    }
}

/// Parses a decimal integer literal into an `i32`, the way `i32::from_str`
/// does: an optional `+` or `-`, then decimal digits; `None` when the text
/// is not of that shape or the value does not fit.
pub fn parse_i32(text: &str) -> (res: Option<i32>)
    ensures
        res == i32_from_text(text@),
{
    let n = text.unicode_len();
    let ghost s = text@;
    let mut start: usize = 0;
    let mut neg = false;
    if n > 0 {
        let c0 = text.get_char(0);
        if c0 == '-' {
            neg = true;
            start = 1;
        } else if c0 == '+' {
            start = 1;
        }
    }
    let ghost body = s.skip(start as int);
    assert(split_sign(s) == (neg, body));
    if start >= n {
        assert(body.len() == 0);
        return None;
    }
    let mut acc: i64 = 0;
    let mut i: usize = start;
    while i < n
        invariant
            n == s.len(),
            s == text@,
            start <= i <= n,
            body == s.skip(start as int),
            all_decimal_digits(body.take(i - start)),
            acc == decimal_value(body.take(i - start)),
            acc <= 2147483648,
            split_sign(s) == (neg, body),
        decreases n - i,
    {
        let c = text.get_char(i);
        assert(c == body[i - start]);
        if c < '0' || c > '9' {
            assert(!is_decimal_digit(body[i - start]));
            assert(!all_decimal_digits(body));
            return None;
        }
        let d = (c as u32 - '0' as u32) as i64;
        assert(body.take(i + 1 - start).drop_last() =~= body.take(i - start));
        assert(all_decimal_digits(body.take(i + 1 - start))) by {
            assert forall|k: int| 0 <= k < body.take(i + 1 - start).len() implies is_decimal_digit(
                #[trigger] body.take(i + 1 - start)[k],
            ) by {
                if k < i - start {
                    assert(body.take(i + 1 - start)[k] == body.take(i - start)[k]);
                }
            }
        }
        let next = acc * 10 + d;
        assert(body.take(i + 1 - start).last() == c);
        assert(decimal_value(body.take(i + 1 - start)) == next);
        i = i + 1;
        if next > 2147483648 {
            assert(integer_text_value(s) is None || i32_from_text(s) is None) by {
                if all_decimal_digits(body) {
                    lemma_decimal_value_prefix_monotone(body, i - start, body.len() as int);
                    assert(body.take(body.len() as int) =~= body);
                }
            }
            return None;
        }
        acc = next;
    }
    assert(body.take(n - start) =~= body);
    if neg {
        Some((-acc) as i32)
    } else if acc <= 2147483647 {
        Some(acc as i32)
    } else {
        None
    }
}

proof fn lemma_decimal_text_value(n: nat)
    ensures
        decimal_text(n).len() > 0,
        all_decimal_digits(decimal_text(n)),
        decimal_value(decimal_text(n)) == n,
        decimal_text(n)[0] != '-' && decimal_text(n)[0] != '+',
    decreases n,
{
    if n < 10 {
        assert(digit_value(digit_char(n)) == n);
        assert(decimal_text(n).drop_last() =~= Seq::<char>::empty());
        assert(decimal_value(decimal_text(n).drop_last()) == 0);
        assert(decimal_text(n).last() == digit_char(n));
    } else {
        lemma_decimal_text_value(n / 10);
        let s = decimal_text(n);
        assert(s.drop_last() =~= decimal_text(n / 10));
        assert(digit_value(digit_char(n % 10)) == n % 10);
        assert(s.last() == digit_char(n % 10));
        assert(decimal_value(s) == decimal_value(decimal_text(n / 10)) * 10 + n % 10);
        assert((n / 10) * 10 + n % 10 == n) by (nonlinear_arith);
        assert forall|i: int| 0 <= i < s.len() implies is_decimal_digit(#[trigger] s[i]) by {
            if i < s.len() - 1 {
                assert(s[i] == decimal_text(n / 10)[i]);
            }
        }
        assert(s[0] == decimal_text(n / 10)[0]);
    }
}

/// The syscall number that a generated `sysno(..)` attribute writes in
/// decimal is the number that parsing it back gives.
pub proof fn law_sysno_text_round_trip(n: nat)
    requires
        n <= i32::MAX,
    ensures
        i32_from_text(decimal_text(n)) == Some(n as i32),
{
    lemma_decimal_text_value(n);
    let s = decimal_text(n);
    assert(split_sign(s) == (false, s));
}

} // verus!
