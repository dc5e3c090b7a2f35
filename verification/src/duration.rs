//! Spans of time as text: `1d2h30m15s` and the like.

use vstd::prelude::*;
use crate::text::{i64_to_string, signed_decimal};

verus! {

/// Whether `c` is a decimal digit.
pub open spec fn is_digit(c: char) -> bool {
    '0' <= c && c <= '9'
}

/// The value of the decimal digit `c`.
pub open spec fn digit_value(c: char) -> nat {
    (c as u32 - '0' as u32) as nat
}

/// How many milliseconds the unit letter `c` stands for: `s`, `m`, `h` or
/// `d`.
pub open spec fn unit_ms(c: char) -> Option<nat> {
    if c == 's' {
        Some(1000)
    } else if c == 'm' {
        Some(60 * 1000)
    } else if c == 'h' {
        Some(60 * 60 * 1000)
    } else if c == 'd' {
        Some(24 * 60 * 60 * 1000)
    } else {
        None
    }
}

/// Reads `text` from the left: the milliseconds summed up so far and the
/// number whose digits were read last, or `None` where a character is
/// neither a digit nor a unit. A unit adds the number before it, times the
/// unit, to the sum; a unit without a number adds nothing.
pub open spec fn scan(text: Seq<char>) -> Option<(nat, nat)>
    decreases text.len(),
{
    if text.len() == 0 {
        Some((0, 0))
    } else {
        match scan(text.drop_last()) {
            None => None,
            Some((sum, number)) => {
                let c = text.last();
                if is_digit(c) {
                    Some((sum, number * 10 + digit_value(c)))
                } else {
                    match unit_ms(c) {
                        Some(unit) => Some((sum + number * unit, 0)),
                        None => None,
                    }
                }
            },
        }
    }
}

/// The milliseconds that `text` stands for. Digits after the last unit
/// count for nothing.
pub open spec fn duration_ms(text: Seq<char>) -> Option<nat> {
    match scan(text) {
        Some((sum, _)) => Some(sum),
        None => None,
    }
}

/// Values are followed exactly up to this bound; beyond it only the fact
/// that they are beyond it matters.
const CAP: u64 = 0x1_0000_0000;

/// `x`, but no more than the bound.
spec fn capped(x: nat) -> nat {
    if x >= CAP {
        CAP as nat
    } else {
        x
    }
}

proof fn lemma_capped_number(number: nat, d: nat)
    requires
        d < 10,
    ensures
        capped(capped(number) * 10 + d) == capped(number * 10 + d),
{
}

proof fn lemma_capped_sum(sum: nat, number: nat, unit: nat)
    requires
        1000 <= unit <= 86400000,
    ensures
        capped(capped(sum) + capped(number) * unit) == capped(sum + number * unit),
        capped(number) * unit <= 0x1_0000_0000 * 86400000,
{
    assert(capped(number) * unit <= 0x1_0000_0000 * 86400000) by (nonlinear_arith)
        requires
            capped(number) <= 0x1_0000_0000,
            unit <= 86400000,
    ;
    if number >= CAP {
        assert(number * unit >= CAP) by (nonlinear_arith)
            requires
                number >= CAP,
                unit >= 1000,
        ;
        assert(capped(number) * unit >= CAP) by (nonlinear_arith)
            requires
                capped(number) == CAP,
                unit >= 1000,
        ;
    }
}

/// Reads a span of time such as `90s` or `1d12h`: numbers, each followed by
/// `s`, `m`, `h` or `d`, in any order and number. The result is their sum in
/// milliseconds. Text with any other character gives `None`, and so does a
/// sum that is more than an `i32` holds.
pub fn to_ms(text: &str) -> (ms: Option<i32>)
    ensures
        ms == (match duration_ms(text@) {
            Some(sum) => if sum <= i32::MAX {
                Some(sum as i32)
            } else {
                None
            },
            None => None,
        }),
{
    let mut sum: u64 = 0;
    let mut number: u64 = 0;
    for c in it: text.chars()
        invariant
            it.seq() == text@,
            scan(text@.take(it.index())) is Some,
            sum == capped(scan(text@.take(it.index()))->Some_0.0),
            number == capped(scan(text@.take(it.index()))->Some_0.1),
    {
        proof {
            let i = it.index();
            assert(text@.take(i + 1).drop_last() =~= text@.take(i));
            assert(text@.take(i + 1).last() == c);
            let (s, n) = scan(text@.take(i))->Some_0;
            if is_digit(c) {
                lemma_capped_number(n, digit_value(c));
            } else if unit_ms(c) is Some {
                lemma_capped_sum(s, n, unit_ms(c)->Some_0);
            }
        }
        if c >= '0' && c <= '9' {
            let d = (c as u32 - '0' as u32) as u64;
            number = number * 10 + d;
            if number > CAP {
                number = CAP;
            }
        } else {
            let unit: u64 = if c == 's' {
                1000
            } else if c == 'm' {
                60 * 1000
            } else if c == 'h' {
                60 * 60 * 1000
            } else if c == 'd' {
                24 * 60 * 60 * 1000
            } else {
                proof {
                    lemma_scan_stays_none(text@, it.index() + 1);
                }
                return None;
            };
            sum = sum + number * unit;
            if sum > CAP {
                sum = CAP;
            }
            number = 0;
        }
    }
    proof {
        assert(text@.take(text@.len() as int) =~= text@);
    }
    if sum <= 0x7fff_ffff {
        Some(sum as i32)
    } else {
        None
    }
}

/// Once a prefix cannot be read, the whole text cannot.
proof fn lemma_scan_stays_none(text: Seq<char>, n: int)
    requires
        0 <= n <= text.len(),
        scan(text.take(n)) is None,
    ensures
        scan(text) is None,
    decreases text.len() - n,
{
    if n == text.len() {
        assert(text.take(n) =~= text);
    } else {
        assert(text.take(n + 1).drop_last() =~= text.take(n));
        lemma_scan_stays_none(text, n + 1);
    }
}

/// `a` divided by `b`, rounded towards zero.
pub open spec fn quotient(a: int, b: int) -> int {
    if a >= 0 {
        a / b
    } else {
        -((-a) / b)
    }
}

/// What is left of `a` when `b` is taken out of it as often as `quotient`
/// says; it has the sign of `a`.
pub open spec fn remainder(a: int, b: int) -> int {
    a - quotient(a, b) * b
}

/// A span of seconds in days, hours, minutes and seconds: the days that fit
/// into it, the hours that fit into the rest, and so on. A negative span
/// gives negative parts.
pub open spec fn span_parts(seconds: int) -> (int, int, int, int) {
    let days = quotient(seconds, 86400);
    let in_day = remainder(seconds, 86400);
    let hours = quotient(in_day, 3600);
    let in_hour = remainder(in_day, 3600);
    (days, hours, quotient(in_hour, 60), remainder(in_hour, 60))
}

/// A span of milliseconds as days, hours, minutes and seconds, each with
/// its letter; what is left of a second is dropped.
pub open spec fn span_text(ms: int) -> Seq<char> {
    let (days, hours, minutes, seconds) = span_parts(quotient(ms, 1000));
    signed_decimal(days) + "d "@ + signed_decimal(hours) + "h "@ + signed_decimal(minutes) + "m "@
        + signed_decimal(seconds) + "s"@
}

/// Takes a span of seconds apart.
fn split_span(seconds: i32) -> (parts: (i32, i32, i32, i32))
    ensures
        (parts.0 as int, parts.1 as int, parts.2 as int, parts.3 as int) == span_parts(seconds as int),
{
    let days = seconds / 86400;
    assert(days == quotient(seconds as int, 86400));
    let in_day = seconds - days * 86400;
    let hours = in_day / 3600;
    assert(hours == quotient(in_day as int, 3600));
    let in_hour = in_day - hours * 3600;
    let minutes = in_hour / 60;
    assert(minutes == quotient(in_hour as int, 60));
    (days, hours, minutes, in_hour - minutes * 60)
}

/// Writes a span of milliseconds as days, hours, minutes and seconds, as in
/// `1d 2h 30m 15s`.
pub fn from_ms(ms: i32) -> (text: String)
    ensures
        text@ == span_text(ms as int),
{
    let seconds = ms / 1000;
    assert(seconds == quotient(ms as int, 1000));
    let (days, hours, minutes, seconds) = split_span(seconds);
    let mut text = i64_to_string(days as i64);
    text.append("d ");
    let part = i64_to_string(hours as i64);
    text.append(part.as_str());
    text.append("h ");
    let part = i64_to_string(minutes as i64);
    text.append(part.as_str());
    text.append("m ");
    let part = i64_to_string(seconds as i64);
    text.append(part.as_str());
    text.append("s");
    assert(text@ =~= span_text(ms as int));
    text
}

} // verus!
