//! Integers in decimal notation: an optional sign and one or more digits.

use crate::ascii::lemma_ascii_bytes;
use vstd::prelude::*;
use vstd::utf8::is_ascii_chars;

verus! {

/// Whether `c` is a decimal digit.
pub open spec fn is_digit(c: char) -> bool {
    '0' <= c && c <= '9'
}

/// The number that the digit `c` stands for.
pub open spec fn digit_value(c: char) -> nat {
    (c as int - '0' as int) as nat
}

/// Whether `text` holds decimal digits only.
pub open spec fn all_digits(text: Seq<char>) -> bool {
    forall|i: int| 0 <= i < text.len() ==> is_digit(#[trigger] text[i])
}

/// The number that a sequence of digits denotes, the first digit counting
/// most.
pub open spec fn digits_value(digits: Seq<char>) -> nat
    decreases digits.len(),
{
    if digits.len() == 0 {
        0
    } else {
        digits_value(digits.drop_last()) * 10 + digit_value(digits.last())
    }
}

/// Whether `text` begins with a sign: `+`, or `-` where negative numbers
/// are written.
pub open spec fn has_sign(text: Seq<char>, signed: bool) -> bool {
    text.len() > 0 && (text[0] == '+' || (signed && text[0] == '-'))
}

/// The integer that `text` denotes: a sign or none, then at least one digit
/// and nothing else. A `-` is a sign only where `signed` holds. There is no
/// integer for any other text.
pub open spec fn decimal(text: Seq<char>, signed: bool) -> Option<int> {
    let digits = if has_sign(text, signed) {
        text.drop_first()
    } else {
        text
    };
    if digits.len() > 0 && all_digits(digits) {
        if has_sign(text, signed) && text[0] == '-' {
            Some(-(digits_value(digits) as int))
        } else {
            Some(digits_value(digits) as int)
        }
    } else {
        None
    }
}

/// The integer that `text` denotes if it lies between `least` and `most`,
/// and none otherwise. A `-` is read where `least` is negative.
pub open spec fn decimal_within(text: Seq<char>, least: int, most: int) -> Option<int> {
    match decimal(text, least < 0) {
        Some(value) => if least <= value <= most {
            Some(value)
        } else {
            None
        },
        None => None,
    }
}

/// The digits read so far never denote more than all of them do.
proof fn lemma_digits_value_grows(digits: Seq<char>, count: int)
    requires
        0 <= count <= digits.len(),
    ensures
        digits_value(digits.take(count)) <= digits_value(digits),
    decreases digits.len(),
{
    if count < digits.len() {
        assert(digits.drop_last().take(count) =~= digits.take(count));
        lemma_digits_value_grows(digits.drop_last(), count);
    } else {
        assert(digits.take(count) =~= digits);
    }
}

/// One more digit multiplies what was read by ten and adds the digit.
proof fn lemma_digits_value_step(digits: Seq<char>, count: int)
    requires
        0 <= count < digits.len(),
    ensures
        digits_value(digits.take(count + 1)) == digits_value(digits.take(count)) * 10
            + digit_value(digits[count]),
{
    assert(digits.take(count + 1).drop_last() =~= digits.take(count));
}

/// Text that denotes an integer is written in ASCII.
proof fn lemma_decimal_is_ascii(text: Seq<char>, signed: bool)
    requires
        decimal(text, signed) is Some,
    ensures
        is_ascii_chars(text),
{
    let digits = if has_sign(text, signed) {
        text.drop_first()
    } else {
        text
    };
    assert forall|i: int| 0 <= i < text.len() implies '\0' <= #[trigger] text[i] <= '\u{7f}' by {
        if has_sign(text, signed) {
            if i > 0 {
                assert(is_digit(digits[i - 1]));
            }
        } else {
            assert(is_digit(digits[i]));
        }
    }
}

/// Reads a decimal integer between `-below` and `above`, and gives its
/// sign, `true` for `-`, and its magnitude. No `-` is read where `below` is
/// zero.
pub fn read_decimal(raw: &str, below: u128, above: u128) -> (out: Option<(bool, u128)>)
    ensures
        match out {
            Some((negative, magnitude)) => decimal_within(raw@, -(below as int), above as int)
                == Some(
                if negative {
                    -(magnitude as int)
                } else {
                    magnitude as int
                },
            ) && (negative ==> below > 0),
            None => decimal_within(raw@, -(below as int), above as int) is None,
        },
{
    let ghost signed = below > 0;
    if !raw.is_ascii() {
        proof {
            if decimal(raw@, signed) is Some {
                lemma_decimal_is_ascii(raw@, signed);
            }
        }
        return None;
    }
    let bytes = raw.as_bytes();
    proof {
        lemma_ascii_bytes(raw@);
    }
    let len = bytes.len();
    if len == 0 {
        return None;
    }
    let negative = below > 0 && bytes[0] as char == '-';
    let start: usize = if bytes[0] as char == '+' || negative {
        1
    } else {
        0
    };
    let limit = if negative {
        below
    } else {
        above
    };
    let ghost digits = raw@.skip(start as int);
    assert(digits =~= if has_sign(raw@, signed) {
        raw@.drop_first()
    } else {
        raw@
    });
    if start == len {
        return None;
    }
    let mut magnitude: u128 = 0;
    let mut at = start;
    while at < len
        invariant
            start <= at <= len,
            len == raw@.len(),
            len == bytes@.len(),
            signed == (below > 0),
            negative == (has_sign(raw@, signed) && raw@[0] == '-'),
            limit == if negative {
                below
            } else {
                above
            },
            digits == raw@.skip(start as int),
            digits.len() > 0,
            digits == if has_sign(raw@, signed) {
                raw@.drop_first()
            } else {
                raw@
            },
            forall|i: int| 0 <= i < raw@.len() ==> (#[trigger] bytes@[i]) as char == raw@[i],
            forall|i: int| 0 <= i < at - start ==> is_digit(#[trigger] digits[i]),
            magnitude == digits_value(digits.take(at - start)),
            magnitude <= limit,
        decreases len - at,
    {
        let c = bytes[at] as char;
        assert(digits[at - start] == c);
        if c < '0' || c > '9' {
            return None;
        }
        let digit = (c as u8 - '0' as u8) as u128;
        assert(digit == digit_value(c));
        proof {
            lemma_digits_value_step(digits, at - start);
        }
        if digit > limit || magnitude > (limit - digit) / 10 {
            proof {
                if all_digits(digits) {
                    lemma_digits_value_grows(digits, at - start + 1);
                }
            }
            return None;
        }
        magnitude = magnitude * 10 + digit;
        at += 1;
    }
    assert(digits.take(at - start) =~= digits);
    Some((negative, magnitude))
}

/// Puts a sign and a magnitude together.
pub fn signed_value(negative: bool, magnitude: u128) -> (value: i128)
    requires
        magnitude <= i128::MAX + (if negative {
            1int
        } else {
            0int
        }),
    ensures
        value == if negative {
            -(magnitude as int)
        } else {
            magnitude as int
        },
{
    if !negative {
        magnitude as i128
    } else if magnitude > i128::MAX as u128 {
        i128::MIN
    } else {
        -(magnitude as i128)
    }
}

} // verus!
