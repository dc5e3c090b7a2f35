//! Reading numbers from text, as `str::parse` reads them: an optional sign,
//! then decimal digits and nothing else, and no number that the type does not
//! hold.

use vstd::prelude::*;
use crate::duration::{digit_value, is_digit};

verus! {

/// The number that the digits `text` stand for; 0 for no digits.
pub open spec fn digits_value(text: Seq<char>) -> nat
    decreases text.len(),
{
    if text.len() == 0 {
        0
    } else {
        digits_value(text.drop_last()) * 10 + digit_value(text.last())
    }
}

/// Whether `text` is made of decimal digits, at least one.
pub open spec fn all_digits(text: Seq<char>) -> bool {
    text.len() > 0 && forall|i: int| 0 <= i < text.len() ==> is_digit(#[trigger] text[i])
}

/// The number that `text` stands for: digits, with a sign in front or not;
/// `None` where it is not of that form.
pub open spec fn signed_value(text: Seq<char>) -> Option<int> {
    if text.len() > 0 && text[0] == '-' {
        if all_digits(text.skip(1)) {
            Some(-(digits_value(text.skip(1)) as int))
        } else {
            None
        }
    } else if text.len() > 0 && text[0] == '+' {
        if all_digits(text.skip(1)) {
            Some(digits_value(text.skip(1)) as int)
        } else {
            None
        }
    } else if all_digits(text) {
        Some(digits_value(text) as int)
    } else {
        None
    }
}

/// The `u32` that `text` stands for. A minus sign is taken for no number,
/// even before zero.
pub open spec fn u32_value(text: Seq<char>) -> Option<u32> {
    if text.len() > 0 && text[0] == '-' {
        None
    } else {
        match signed_value(text) {
            Some(v) => if v <= u32::MAX {
                Some(v as u32)
            } else {
                None
            },
            None => None,
        }
    }
}

/// The `i32` that `text` stands for.
pub open spec fn i32_value(text: Seq<char>) -> Option<i32> {
    match signed_value(text) {
        Some(v) => if i32::MIN <= v <= i32::MAX {
            Some(v as i32)
        } else {
            None
        },
        None => None,
    }
}

/// More digits make no smaller number.
proof fn lemma_digits_grow(text: Seq<char>, n: int)
    requires
        0 <= n <= text.len(),
    ensures
        digits_value(text.take(n)) <= digits_value(text),
    decreases text.len() - n,
{
    if n < text.len() {
        assert(text.take(n + 1).drop_last() =~= text.take(n));
        lemma_digits_grow(text, n + 1);
    } else {
        assert(text.take(n) =~= text);
    }
}

/// Reads the digits `chars[from..]`: their value where they are digits, at
/// least one, and the value is at most `limit`.
fn read_digits(chars: &Vec<char>, from: usize, limit: u64) -> (value: Option<u64>)
    requires
        from <= chars@.len(),
        limit <= 0x1_0000_0000,
    ensures
        value == (if all_digits(chars@.skip(from as int)) && digits_value(chars@.skip(from as int)) <= limit {
            Some(digits_value(chars@.skip(from as int)) as u64)
        } else {
            None
        }),
{
    let ghost text = chars@.skip(from as int);
    if from == chars.len() {
        return None;
    }
    let mut value: u64 = 0;
    let mut i = from;
    assert(text.take(0) =~= Seq::<char>::empty());
    while i < chars.len()
        invariant
            from <= i <= chars@.len(),
            text == chars@.skip(from as int),
            limit <= 0x1_0000_0000,
            value == digits_value(text.take(i - from)),
            value <= limit,
            forall|k: int| 0 <= k < i - from ==> is_digit(#[trigger] text[k]),
        decreases chars@.len() - i,
    {
        let c = chars[i];
        assert(text[i - from] == c);
        if !(c >= '0' && c <= '9') {
            return None;
        }
        proof {
            assert(text.take(i - from + 1).drop_last() =~= text.take(i - from));
            assert(text.take(i - from + 1).last() == c);
        }
        value = value * 10 + (c as u32 - '0' as u32) as u64;
        if value > limit {
            proof {
                lemma_digits_grow(text, i - from + 1);
            }
            return None;
        }
        i += 1;
    }
    assert(text.take(text.len() as int) =~= text);
    Some(value)
}

/// Reads a `u32`.
pub fn parse_u32(text: &Vec<char>) -> (value: Option<u32>)
    ensures
        value == u32_value(text@),
{
    if text.len() > 0 && text[0] == '-' {
        return None;
    }
    let from: usize = if text.len() > 0 && text[0] == '+' {
        1
    } else {
        0
    };
    assert(text@.skip(0) =~= text@);
    match read_digits(text, from, 0xffff_ffff) {
        Some(v) => Some(v as u32),
        None => None,
    }
}

/// Reads an `i32`.
pub fn parse_i32(text: &Vec<char>) -> (value: Option<i32>)
    ensures
        value == i32_value(text@),
{
    assert(text@.skip(0) =~= text@);
    if text.len() > 0 && text[0] == '-' {
        match read_digits(text, 1, 0x8000_0000) {
            Some(v) => Some((0 - v as i64) as i32),
            None => None,
        }
    } else if text.len() > 0 && text[0] == '+' {
        match read_digits(text, 1, 0x7fff_ffff) {
            Some(v) => Some(v as i32),
            None => None,
        }
    } else {
        match read_digits(text, 0, 0x7fff_ffff) {
            Some(v) => Some(v as i32),
            None => None,
        }
    }
}

} // verus!
