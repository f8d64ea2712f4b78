//! Decimal integers as std's `str::parse` reads them: an optional sign,
//! then one or more ASCII digits, and nothing else.

use vstd::prelude::*;
use crate::text::chars_of;

verus! {

pub open spec fn is_digit(c: char) -> bool {
    '0' <= c && c <= '9'
}

pub open spec fn digit_value(c: char) -> nat {
    (c as int - '0' as int) as nat
}

pub open spec fn all_digits(s: Seq<char>) -> bool {
    forall|i: int| 0 <= i < s.len() ==> is_digit(#[trigger] s[i])
}

/// The value of a run of decimal digits, most significant first.
pub open spec fn digits_value(s: Seq<char>) -> nat
    decreases s.len(),
{
    if s.len() == 0 {
        0
    } else {
        digits_value(s.drop_last()) * 10 + digit_value(s.last())
    }
}

/// A non-empty run of digits.
pub open spec fn is_digit_run(s: Seq<char>) -> bool {
    s.len() > 0 && all_digits(s)
}

/// The integer that a text spells for a signed type: `+` or `-` may lead.
pub open spec fn signed_decimal(s: Seq<char>) -> Option<int> {
    if s.len() > 0 && s[0] == '-' {
        if is_digit_run(s.drop_first()) {
            Some(-(digits_value(s.drop_first()) as int))
        } else {
            None
        }
    } else if s.len() > 0 && s[0] == '+' {
        if is_digit_run(s.drop_first()) {
            Some(digits_value(s.drop_first()) as int)
        } else {
            None
        }
    } else if is_digit_run(s) {
        Some(digits_value(s) as int)
    } else {
        None
    }
}

/// The integer that a text spells for an unsigned type: only `+` may lead.
pub open spec fn unsigned_decimal(s: Seq<char>) -> Option<nat> {
    if s.len() > 0 && s[0] == '+' {
        if is_digit_run(s.drop_first()) {
            Some(digits_value(s.drop_first()))
        } else {
            None
        }
    } else if is_digit_run(s) {
        Some(digits_value(s))
    } else {
        None
    }
}

/// What `s.parse::<i64>()` gives, as an `Option`.
pub open spec fn i64_parse(s: Seq<char>) -> Option<i64> {
    match signed_decimal(s) {
        Some(v) => if i64::MIN <= v <= i64::MAX {
            Some(v as i64)
        } else {
            None
        },
        None => None,
    }
}

/// What `s.parse::<u16>()` gives, as an `Option`.
pub open spec fn u16_parse(s: Seq<char>) -> Option<u16> {
    match unsigned_decimal(s) {
        Some(v) => if v <= u16::MAX {
            Some(v as u16)
        } else {
            None
        },
        None => None,
    }
}

pub proof fn lemma_digits_value_step(s: Seq<char>, c: char)
    ensures
        digits_value(s.push(c)) == digits_value(s) * 10 + digit_value(c),
{
    assert(s.push(c).drop_last() =~= s);
}

/// Reads the digits `cs[start..]`; `None` when one is not a digit or the
/// value exceeds `limit`, else the value.
fn read_digits(cs: &Vec<char>, start: usize, limit: u128) -> (res: Option<u128>)
    requires
        start <= cs@.len(),
        limit <= u64::MAX,
    ensures
        match res {
            Some(v) => all_digits(cs@.skip(start as int)) && v == digits_value(
                cs@.skip(start as int),
            ) && v <= limit,
            None => !all_digits(cs@.skip(start as int)) || digits_value(cs@.skip(start as int))
                > limit,
        },
{
    let n = cs.len();
    let mut i = start;
    let mut value: u128 = 0;
    let mut over = false;
    while i < n
        invariant
            n == cs@.len(),
            start <= i <= n,
            limit <= u64::MAX,
            all_digits(cs@.subrange(start as int, i as int)),
            !over ==> value == digits_value(cs@.subrange(start as int, i as int)) && value <= limit,
            over ==> digits_value(cs@.subrange(start as int, i as int)) > limit,
        decreases n - i,
    {
        let c = cs[i];
        if !('0' <= c && c <= '9') {
            assert(cs@.skip(start as int)[i - start] == c);
            return None;
        }
        let ghost prefix = cs@.subrange(start as int, i as int);
        proof {
            lemma_digits_value_step(prefix, c);
            assert(cs@.subrange(start as int, i + 1) =~= prefix.push(c));
        }
        if !over {
            let d = (c as u32 - '0' as u32) as u128;
            let next = value * 10 + d;
            if next > limit {
                over = true;
            } else {
                value = next;
            }
        } else {
            assert(digits_value(prefix.push(c)) >= digits_value(prefix)) by (nonlinear_arith)
                requires
                    digits_value(prefix.push(c)) == digits_value(prefix) * 10 + digit_value(c),
            ;
        }
        i = i + 1;
    }
    assert(cs@.subrange(start as int, n as int) =~= cs@.skip(start as int));
    if over {
        None
    } else {
        Some(value)
    }
}

/// `s.parse::<i64>()`: an optional `+` or `-`, then at least one digit,
/// the value within the range of `i64`.
pub fn parse_i64(s: &str) -> (res: Option<i64>)
    ensures
        res == i64_parse(s@),
{
    let cs = chars_of(s);
    let n = cs.len();
    if n == 0 {
        return None;
    }
    let first = cs[0];
    if first == '-' || first == '+' {
        if n == 1 {
            proof {
                assert(s@.drop_first().len() == 0);
            }
            return None;
        }
        // one past i64::MAX is the magnitude of i64::MIN
        let limit: u128 = if first == '-' { 9223372036854775808 } else { 9223372036854775807 };
        proof {
            assert(cs@.skip(1) =~= s@.drop_first());
        }
        match read_digits(&cs, 1, limit) {
            Some(v) => {
                if first == '-' {
                    if v == 9223372036854775808 {
                        Some(i64::MIN)
                    } else {
                        Some(-((v as u64) as i64))
                    }
                } else {
                    Some((v as u64) as i64)
                }
            },
            None => None,
        }
    } else {
        proof {
            assert(cs@.skip(0) =~= s@);
        }
        match read_digits(&cs, 0, 9223372036854775807) {
            Some(v) => Some((v as u64) as i64),
            None => None,
        }
    }
}

/// `s.parse::<u16>()`: an optional `+`, then at least one digit, the
/// value at most 65535.
pub fn parse_u16(s: &str) -> (res: Option<u16>)
    ensures
        res == u16_parse(s@),
{
    let cs = chars_of(s);
    let n = cs.len();
    if n == 0 {
        return None;
    }
    let start: usize = if cs[0] == '+' { 1 } else { 0 };
    if start == 1 && n == 1 {
        proof {
            assert(s@.drop_first().len() == 0);
        }
        return None;
    }
    proof {
        if start == 1 {
            assert(cs@.skip(1) =~= s@.drop_first());
        } else {
            assert(cs@.skip(0) =~= s@);
        }
    }
    match read_digits(&cs, start, 65535) {
        Some(v) => Some(v as u16),
        None => None,
    }
}

} // verus!
