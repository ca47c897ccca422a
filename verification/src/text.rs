//! Small operations on text that the rest of the library is built on.

use vstd::prelude::*;
use vstd::string::StrSliceExecFns;

verus! {

/// Whether `text` begins with `prefix`.
pub open spec fn begins_with(text: Seq<char>, prefix: Seq<char>) -> bool {
    prefix.len() <= text.len() && text.subrange(0, prefix.len() as int) == prefix
}

/// Whether two pieces of text are the same.
pub fn same_text(a: &str, b: &str) -> (res: bool)
    ensures
        res == (a@ == b@),
{
    let left = a.to_owned();
    let right = b.to_owned();
    left == right
}

/// Whether `text` begins with `prefix`.
pub fn starts_with(text: &str, prefix: &str) -> (res: bool)
    ensures
        res == begins_with(text@, prefix@),
{
    let n = prefix.unicode_len();
    if text.unicode_len() < n {
        return false;
    }
    let mut i: usize = 0;
    while i < n
        invariant
            i <= n,
            n == prefix@.len(),
            n <= text@.len(),
            forall|k: int| 0 <= k < i ==> text@[k] == prefix@[k],
        decreases n - i,
    {
        if text.get_char(i) != prefix.get_char(i) {
            assert(text@.subrange(0, n as int)[i as int] != prefix@[i as int]);
            return false;
        }
        i += 1;
    }
    assert(text@.subrange(0, n as int) =~= prefix@);
    true
}

/// Whether `c` is one of the ten decimal digits.
pub open spec fn is_digit(c: char) -> bool {
    '0' <= c <= '9'
}

/// The number that a sequence of decimal digits stands for.
pub open spec fn decimal_value(digits: Seq<char>) -> int
    decreases digits.len(),
{
    if digits.len() == 0 {
        0
    } else {
        decimal_value(digits.drop_last()) * 10 + (digits.last() as int - '0' as int)
    }
}

/// The digits of a decimal number: the text without its sign.
pub open spec fn digits_of(text: Seq<char>) -> Seq<char> {
    if text.len() > 0 && (text[0] == '-' || text[0] == '+') {
        text.skip(1)
    } else {
        text
    }
}

/// The number that `text` stands for as a decimal `i32`: an optional sign,
/// then one digit or more and nothing else, with a value that fits. Any
/// other text stands for no number.
pub open spec fn decimal_i32(text: Seq<char>) -> Option<i32> {
    let digits = digits_of(text);
    let value = if text.len() > 0 && text[0] == '-' {
        -decimal_value(digits)
    } else {
        decimal_value(digits)
    };
    if digits.len() > 0 && (forall|i: int| 0 <= i < digits.len() ==> is_digit(#[trigger] digits[i]))
        && i32::MIN <= value <= i32::MAX {
        Some(value as i32)
    } else {
        None
    }
}

/// Adding digits never makes a number smaller.
proof fn decimal_value_grows(digits: Seq<char>, len: int)
    requires
        0 <= len <= digits.len(),
        forall|i: int| 0 <= i < digits.len() ==> is_digit(#[trigger] digits[i]),
    ensures
        0 <= decimal_value(digits.take(len)) <= decimal_value(digits),
    decreases digits.len(),
{
    if len == digits.len() {
        assert(digits.take(len) =~= digits);
        decimal_value_is_natural(digits);
    } else {
        let shorter = digits.drop_last();
        assert forall|i: int| 0 <= i < shorter.len() implies is_digit(#[trigger] shorter[i]) by {
            assert(shorter[i] == digits[i]);
        }
        decimal_value_grows(shorter, len);
        assert(shorter.take(len) =~= digits.take(len));
        decimal_value_is_natural(shorter);
        assert(is_digit(digits[digits.len() - 1]));
    }
}

/// A sequence of digits stands for a number that is not negative.
proof fn decimal_value_is_natural(digits: Seq<char>)
    requires
        forall|i: int| 0 <= i < digits.len() ==> is_digit(#[trigger] digits[i]),
    ensures
        0 <= decimal_value(digits),
    decreases digits.len(),
{
    if digits.len() > 0 {
        decimal_value_is_natural(digits.drop_last());
    }
}

/// Reads a decimal `i32`, as `str::parse::<i32>` does.
pub fn parse_i32(text: &str) -> (res: Option<i32>)
    ensures
        res == decimal_i32(text@),
{
    if !text.is_ascii() {
        proof {
            let digits = digits_of(text@);
            let at = choose|i: int| 0 <= i < text@.len() && !('\0' <= #[trigger] text@[i] <= '\u{7f}');
            if digits.len() == text@.len() {
                assert(!is_digit(digits[at]));
            } else {
                assert(at > 0);
                assert(!is_digit(digits[at - 1]));
            }
        }
        return None;
    }
    let bytes = text.as_bytes();
    proof {
        vstd::string::is_ascii_spec_bytes(text);
    }
    let n = bytes.len();
    if n == 0 {
        return None;
    }
    let negative = bytes[0] == 45u8;
    let start: usize = if bytes[0] == 45u8 || bytes[0] == 43u8 {
        1
    } else {
        0
    };
    let ghost digits = digits_of(text@);
    assert(digits =~= text@.skip(start as int));
    if start == n {
        return None;
    }
    // The number is gathered below zero, where an `i32` has room for one more.
    let mut below: i64 = 0;
    let mut i: usize = start;
    assert(digits.take(0) =~= Seq::<char>::empty());
    while i < n
        invariant
            start <= i <= n,
            n == text@.len(),
            n == bytes@.len(),
            forall|k: int| 0 <= k < n ==> bytes@[k] == text@[k] as u8,
            forall|k: int| 0 <= k < n ==> '\0' <= #[trigger] text@[k] <= '\u{7f}',
            digits == text@.skip(start as int),
            digits == digits_of(text@),
            forall|k: int| 0 <= k < i - start ==> is_digit(#[trigger] digits[k]),
            below == -decimal_value(digits.take(i - start)),
            -2147483648 <= below <= 0,
        decreases n - i,
    {
        let b = bytes[i];
        assert(digits[i - start] == text@[i as int]);
        if b < 48u8 || b > 57u8 {
            assert(!is_digit(digits[i - start]));
            return None;
        }
        assert(is_digit(digits[i - start]));
        let d: i64 = (b - 48u8) as i64;
        assert(d == digits[i - start] as int - '0' as int);
        proof {
            assert(digits.take(i - start + 1).drop_last() =~= digits.take(i - start));
            assert(digits.take(i - start + 1).last() == digits[i - start]);
        }
        let next: i64 = below * 10 - d;
        if next < -2147483648 {
            proof {
                if forall|k: int| 0 <= k < digits.len() ==> is_digit(#[trigger] digits[k]) {
                    decimal_value_grows(digits, i - start + 1);
                }
            }
            return None;
        }
        below = next;
        i += 1;
    }
    assert(digits.take(n - start) =~= digits);
    if negative {
        Some(below as i32)
    } else if below == -2147483648 {
        None
    } else {
        Some((-below) as i32)
    }
}

/// Whether an optional text is there and equal to `wanted`.
pub fn is_text(held: &Option<String>, wanted: &str) -> (res: bool)
    ensures
        res == (crate::clients::text_view(*held) == Some(wanted@)),
{
    match held {
        Some(text) => same_text(text.as_str(), wanted),
        None => false,
    }
}

} // verus!
