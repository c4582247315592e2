//! Text comparison and the decimal notation of the counters.

use vstd::prelude::*;
use vstd::string::*;
use vstd::utf8::*;

verus! {

/// Whether two texts hold the same characters.
pub fn same_text(a: &str, b: &str) -> (same: bool)
    ensures
        same == (a@ == b@),
{
    let x = a.as_bytes();
    let y = b.as_bytes();
    proof {
        encode_utf8_decode_utf8(a@);
        encode_utf8_decode_utf8(b@);
    }
    if x.len() != y.len() {
        return false;
    }
    let mut i: usize = 0;
    while i < x.len()
        invariant
            i <= x.len(),
            x.len() == y.len(),
            x@ == encode_utf8(a@),
            y@ == encode_utf8(b@),
            forall|j: int| 0 <= j < i ==> x@[j] == y@[j],
        decreases x.len() - i,
    {
        if x[i] != y[i] {
            return false;
        }
        i += 1;
    }
    assert(x@ =~= y@);
    true
}

/// Whether a character is one of the ten decimal digits.
pub open spec fn is_digit(c: char) -> bool {
    '0' <= c <= '9'
}

/// Whether a text holds decimal digits and nothing else.
pub open spec fn all_digits(text: Seq<char>) -> bool {
    forall|i: int| 0 <= i < text.len() ==> is_digit(#[trigger] text[i])
}

/// The number that a run of decimal digits writes.
pub open spec fn digits_value(digits: Seq<char>) -> int
    decreases digits.len(),
{
    if digits.len() == 0 {
        0
    } else {
        10 * digits_value(digits.drop_last()) + (digits.last() as int - '0' as int)
    }
}

/// Whether a text begins with a sign.
pub open spec fn has_sign(text: Seq<char>) -> bool {
    text.len() > 0 && (text[0] == '-' || text[0] == '+')
}

/// The number that a text writes in decimal notation: an optional `+` or `-`,
/// then one digit or more, and nothing before, between or after.
pub open spec fn decimal(text: Seq<char>) -> Option<int> {
    let digits = if has_sign(text) { text.skip(1) } else { text };
    if digits.len() == 0 || !all_digits(digits) {
        None
    } else if text[0] == '-' {
        Some(-digits_value(digits))
    } else {
        Some(digits_value(digits))
    }
}

/// The counter that a text stands for: its number, where it writes one that
/// an `i32` holds, and 0 otherwise.
pub open spec fn count_value(text: Seq<char>) -> i32 {
    match decimal(text) {
        Some(v) => if i32::MIN <= v <= i32::MAX { v as i32 } else { 0 },
        None => 0,
    }
}

/// Appending a digit multiplies the number by ten and adds the digit.
proof fn lemma_digits_value_push(text: Seq<char>, from: int, to: int)
    requires
        0 <= from <= to < text.len(),
    ensures
        digits_value(text.subrange(from, to + 1)) == 10 * digits_value(text.subrange(from, to))
            + (text[to] as int - '0' as int),
{
    assert(text.subrange(from, to + 1).drop_last() =~= text.subrange(from, to));
}

/// Reads a counter. Text that is no number, or a number that an `i32`
/// cannot hold, counts as 0.
pub fn parse_count(text: &str) -> (count: i32)
    ensures
        count == count_value(text@),
{
    if !text.is_ascii() {
        proof {
            let i = choose|i: int| 0 <= i < text@.len() && !('\0' <= #[trigger] text@[i] <= '\u{7f}');
            if has_sign(text@) {
                assert(text@.skip(1)[i - 1] == text@[i]);
            }
        }
        return 0;
    }
    let bytes = text.as_bytes();
    proof {
        is_ascii_chars_encode_utf8(text@);
    }
    let n = bytes.len();
    if n == 0 {
        return 0;
    }
    let negative = bytes[0] == 45u8;
    let start: usize = if bytes[0] == 45u8 || bytes[0] == 43u8 { 1 } else { 0 };
    let ghost digits = if has_sign(text@) { text@.skip(1) } else { text@ };
    assert(digits =~= text@.subrange(start as int, n as int));
    let mut value: i64 = 0;
    let mut too_large = false;
    let mut i: usize = start;
    while i < n
        invariant
            start <= i <= n,
            n == bytes.len(),
            n == text@.len(),
            is_ascii_chars(text@),
            digits == if has_sign(text@) { text@.skip(1) } else { text@ },
            digits == text@.subrange(start as int, n as int),
            forall|j: int| 0 <= j < n ==> text@[j] as u8 == bytes@[j],
            forall|j: int| start <= j < i ==> is_digit(#[trigger] text@[j]),
            0 <= value <= 2147483648,
            !too_large ==> value == digits_value(text@.subrange(start as int, i as int)),
            too_large ==> digits_value(text@.subrange(start as int, i as int)) > 2147483648,
        decreases n - i,
    {
        let b = bytes[i];
        if b < 48u8 || b > 57u8 {
            assert(!is_digit(text@[i as int]));
            assert(digits[i - start] == text@[i as int]);
            return 0;
        }
        proof {
            lemma_digits_value_push(text@, start as int, i as int);
        }
        if !too_large {
            let next = value * 10 + (b - 48u8) as i64;
            if next > 2147483648 {
                too_large = true;
            } else {
                value = next;
            }
        }
        i += 1;
    }
    assert(text@.subrange(start as int, i as int) =~= digits);
    assert(all_digits(digits)) by {
        assert forall|j: int| 0 <= j < digits.len() implies is_digit(#[trigger] digits[j]) by {
            assert(digits[j] == text@[j + start]);
        }
    }
    if i == start || too_large {
        return 0;
    }
    if negative {
        (-value) as i32
    } else if value > 2147483647 {
        0
    } else {
        value as i32
    }
}

} // verus!
