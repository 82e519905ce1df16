//! Text handling shared by the daemon's configuration sources.
//!
//! Configuration values arrive as optional strings. Unsigned limits are parsed
//! as decimal integers with the same acceptance rule as the standard library's
//! unsigned `FromStr`: an optional leading `+`, then one or more ASCII digits,
//! with a value that fits the target type.

use vstd::prelude::*;
use vstd::string::StringSliceAdditionalSpecFns;

verus! {

/// Whether a byte is an ASCII decimal digit.
pub open spec fn is_digit(byte: u8) -> bool {
    48 <= byte <= 57
}

/// The value of a sequence of decimal digits, most significant first.
pub open spec fn digits_value(digits: Seq<u8>) -> nat
    decreases digits.len(),
{
    if digits.len() == 0 {
        0
    } else {
        digits_value(digits.drop_last()) * 10 + (digits.last() - 48) as nat
    }
}

/// The digits of an unsigned decimal: the text after an optional leading `+`.
pub open spec fn unsigned_digits(text: Seq<u8>) -> Seq<u8> {
    if text.len() > 0 && text[0] == 43 {
        text.skip(1)
    } else {
        text
    }
}

/// The unsigned decimal `text` denotes when its value is at most `max`.
pub open spec fn parse_unsigned(text: Seq<u8>, max: nat) -> Option<nat> {
    let digits = unsigned_digits(text);
    if digits.len() > 0 && (forall|i: int| 0 <= i < digits.len() ==> is_digit(#[trigger] digits[i]))
        && digits_value(digits) <= max {
        Some(digits_value(digits))
    } else {
        None
    }
}

/// Parses an unsigned decimal no greater than `max`.
pub fn parse_decimal(text: &str, max: u64) -> (value: Option<u64>)
    ensures
        parse_unsigned(text.spec_bytes(), max as nat) matches Some(v) ==> value == Some(v as u64),
        parse_unsigned(text.spec_bytes(), max as nat) is None ==> value is None,
{
    let bytes = text.as_bytes();
    let len = bytes.len();
    let start: usize = if len > 0 && bytes[0] == 43 {
        1
    } else {
        0
    };
    let ghost digits = unsigned_digits(bytes@);
    proof {
        assert(digits =~= bytes@.skip(start as int));
    }
    if start == len {
        return None;
    }
    let mut value: u64 = 0;
    let mut overflowed = false;
    let mut i = start;
    while i < len
        invariant
            start <= i <= len,
            len == bytes@.len(),
            digits == bytes@.skip(start as int),
            digits == unsigned_digits(bytes@),
            bytes@ == text.spec_bytes(),
            forall|k: int| 0 <= k < i - start ==> is_digit(#[trigger] digits[k]),
            !overflowed ==> value == digits_value(digits.take(i - start)) && value <= max,
            overflowed ==> digits_value(digits.take(i - start)) > max,
        decreases len - i,
    {
        let byte = bytes[i];
        if byte < 48 || byte > 57 {
            proof {
                assert(!is_digit(digits[i - start]));
                assert(!(forall|j: int| 0 <= j < digits.len() ==> is_digit(#[trigger] digits[j])));
                assert(parse_unsigned(bytes@, max as nat) is None);
            }
            return None;
        }
        let ghost k = i - start;
        proof {
            assert(digits.take(k + 1).drop_last() =~= digits.take(k));
            assert(digits.take(k + 1).last() == byte);
        }
        if !overflowed {
            let digit = (byte - 48) as u64;
            match value.checked_mul(10) {
                Some(scaled) => match scaled.checked_add(digit) {
                    Some(next) if next <= max => {
                        value = next;
                    },
                    _ => {
                        overflowed = true;
                    },
                },
                None => {
                    overflowed = true;
                },
            }
        } else {
            proof {
                assert(digits_value(digits.take(k + 1)) >= digits_value(digits.take(k)));
            }
        }
        i = i + 1;
    }
    proof {
        assert(digits.take(len - start) =~= digits);
    }
    if overflowed {
        None
    } else {
        Some(value)
    }
}

/// Whether a character has the Unicode `White_Space` property, the set that
/// `char::is_whitespace` and `str::trim` use.
pub open spec fn is_white_space(c: char) -> bool {
    let n = c as u32;
    ||| 9 <= n <= 13
    ||| n == 32 || n == 0x85 || n == 0xA0 || n == 0x1680
    ||| 0x2000 <= n <= 0x200A
    ||| n == 0x2028 || n == 0x2029 || n == 0x202F || n == 0x205F || n == 0x3000
}

/// `text` without its leading whitespace.
pub open spec fn trim_start(text: Seq<char>) -> Seq<char>
    decreases text.len(),
{
    if text.len() > 0 && is_white_space(text[0]) {
        trim_start(text.drop_first())
    } else {
        text
    }
}

/// `text` without its trailing whitespace.
pub open spec fn trim_end(text: Seq<char>) -> Seq<char>
    decreases text.len(),
{
    if text.len() > 0 && is_white_space(text.last()) {
        trim_end(text.drop_last())
    } else {
        text
    }
}

/// `text` without leading and trailing whitespace, as `str::trim` returns it.
pub open spec fn trimmed(text: Seq<char>) -> Seq<char> {
    trim_end(trim_start(text))
}

/// Decides [`is_white_space`].
fn white_space(c: char) -> (white: bool)
    ensures
        white == is_white_space(c),
{
    let n = c as u32;
    (9 <= n && n <= 13) || n == 32 || n == 0x85 || n == 0xA0 || n == 0x1680 || (0x2000 <= n && n
        <= 0x200A) || n == 0x2028 || n == 0x2029 || n == 0x202F || n == 0x205F || n == 0x3000
}

/// The subslice of `text` without leading and trailing whitespace.
pub(crate) fn trim(text: &str) -> (part: &str)
    ensures
        part@ == trimmed(text@),
{
    let len = text.unicode_len();
    let mut start: usize = 0;
    assert(text@.subrange(0, len as int) =~= text@);
    while start < len && white_space(text.get_char(start))
        invariant
            start <= len,
            len == text@.len(),
            trim_start(text@) == trim_start(text@.subrange(start as int, len as int)),
        decreases len - start,
    {
        assert(text@.subrange(start as int, len as int).drop_first() =~= text@.subrange(
            start + 1,
            len as int,
        ));
        start = start + 1;
    }
    proof {
        if start < len {
            assert(text@.subrange(start as int, len as int)[0] == text@[start as int]);
        } else {
            assert(text@.subrange(start as int, len as int) =~= Seq::<char>::empty());
        }
    }
    let ghost front = text@.subrange(start as int, len as int);
    assert(front == trim_start(text@));
    let mut end: usize = len;
    while end > start && white_space(text.get_char(end - 1))
        invariant
            start <= end <= len,
            len == text@.len(),
            front == text@.subrange(start as int, len as int),
            trim_end(front) == trim_end(text@.subrange(start as int, end as int)),
        decreases end - start,
    {
        assert(text@.subrange(start as int, end as int).drop_last() =~= text@.subrange(
            start as int,
            end - 1,
        ));
        end = end - 1;
    }
    proof {
        if end > start {
            assert(text@.subrange(start as int, end as int).last() == text@[end - 1]);
        } else {
            assert(text@.subrange(start as int, end as int) =~= Seq::<char>::empty());
        }
    }
    text.substring_char(start, end)
}

} // verus!
