//! Values of parameters, read from text.

use crate::decimal::{decimal_within, read_decimal, signed_value};
use vstd::prelude::*;
use vstd::string::StrSliceExecFns;
use vstd::utf8::{encode_utf8, encode_utf8_decode_utf8};

verus! {

/// Whether two strings hold the same characters.
pub fn str_eq(left: &str, right: &str) -> (same: bool)
    ensures
        same == (left@ == right@),
{
    let left_bytes = left.as_bytes();
    let right_bytes = right.as_bytes();
    proof {
        encode_utf8_decode_utf8(left@);
        encode_utf8_decode_utf8(right@);
    }
    if left_bytes.len() != right_bytes.len() {
        return false;
    }
    let mut at: usize = 0;
    while at < left_bytes.len()
        invariant
            at <= left_bytes@.len(),
            left_bytes@.len() == right_bytes@.len(),
            left_bytes@ == encode_utf8(left@),
            right_bytes@ == encode_utf8(right@),
            forall|i: int| 0 <= i < at ==> left_bytes@[i] == right_bytes@[i],
        decreases left_bytes@.len() - at,
    {
        if left_bytes[at] != right_bytes[at] {
            return false;
        }
        at += 1;
    }
    assert(left_bytes@ =~= right_bytes@);
    true
}

/// A type whose values can be read from the text of a parameter.
///
/// The integer types, `bool`, `char` and `String` are read here as their
/// standard `FromStr` reads them.
pub trait FromText: Sized {
    /// Whether `out` is a possible outcome of reading `raw`, with `None` for
    /// text that is not a value of the type.
    spec fn reads(raw: Seq<char>, out: Option<Self>) -> bool;

    /// Reads a value from `raw`, or returns `None` for malformed text.
    fn from_text(raw: &str) -> (out: Option<Self>)
        ensures
            Self::reads(raw@, out),
    ;
}

impl FromText for bool {
    /// Only `true` and `false` are read.
    open spec fn reads(raw: Seq<char>, out: Option<bool>) -> bool {
        out == if raw == seq!['t', 'r', 'u', 'e'] {
            Some(true)
        } else if raw == seq!['f', 'a', 'l', 's', 'e'] {
            Some(false)
        } else {
            None
        }
    }

    fn from_text(raw: &str) -> (out: Option<bool>) {
        proof {
            reveal_strlit("true");
            reveal_strlit("false");
            assert("true"@ =~= seq!['t', 'r', 'u', 'e']);
            assert("false"@ =~= seq!['f', 'a', 'l', 's', 'e']);
        }
        if str_eq(raw, "true") {
            Some(true)
        } else if str_eq(raw, "false") {
            Some(false)
        } else {
            None
        }
    }
}

impl FromText for char {
    /// Only a text of exactly one character is read.
    open spec fn reads(raw: Seq<char>, out: Option<char>) -> bool {
        out == if raw.len() == 1 {
            Some(raw[0])
        } else {
            None
        }
    }

    fn from_text(raw: &str) -> (out: Option<char>) {
        if raw.unicode_len() == 1 {
            Some(raw.get_char(0))
        } else {
            None
        }
    }
}

impl FromText for String {
    /// Every text is read, as itself.
    open spec fn reads(raw: Seq<char>, out: Option<String>) -> bool {
        out matches Some(text) && text@ == raw
    }

    fn from_text(raw: &str) -> (out: Option<String>) {
        Some(raw.to_owned())
    }
}

impl FromText for u8 {
    /// A decimal integer from 0 to `u8::MAX` is read; a `-` is not.
    open spec fn reads(raw: Seq<char>, out: Option<u8>) -> bool {
        out == match decimal_within(raw, 0, u8::MAX as int) {
            Some(value) => Some(value as u8),
            None => None,
        }
    }

    fn from_text(raw: &str) -> (out: Option<u8>) {
        match read_decimal(raw, 0, u8::MAX as u128) {
            Some((_, magnitude)) => Some(magnitude as u8),
            None => None,
        }
    }
}

impl FromText for u16 {
    /// A decimal integer from 0 to `u16::MAX` is read; a `-` is not.
    open spec fn reads(raw: Seq<char>, out: Option<u16>) -> bool {
        out == match decimal_within(raw, 0, u16::MAX as int) {
            Some(value) => Some(value as u16),
            None => None,
        }
    }

    fn from_text(raw: &str) -> (out: Option<u16>) {
        match read_decimal(raw, 0, u16::MAX as u128) {
            Some((_, magnitude)) => Some(magnitude as u16),
            None => None,
        }
    }
}

impl FromText for u32 {
    /// A decimal integer from 0 to `u32::MAX` is read; a `-` is not.
    open spec fn reads(raw: Seq<char>, out: Option<u32>) -> bool {
        out == match decimal_within(raw, 0, u32::MAX as int) {
            Some(value) => Some(value as u32),
            None => None,
        }
    }

    fn from_text(raw: &str) -> (out: Option<u32>) {
        match read_decimal(raw, 0, u32::MAX as u128) {
            Some((_, magnitude)) => Some(magnitude as u32),
            None => None,
        }
    }
}

impl FromText for u64 {
    /// A decimal integer from 0 to `u64::MAX` is read; a `-` is not.
    open spec fn reads(raw: Seq<char>, out: Option<u64>) -> bool {
        out == match decimal_within(raw, 0, u64::MAX as int) {
            Some(value) => Some(value as u64),
            None => None,
        }
    }

    fn from_text(raw: &str) -> (out: Option<u64>) {
        match read_decimal(raw, 0, u64::MAX as u128) {
            Some((_, magnitude)) => Some(magnitude as u64),
            None => None,
        }
    }
}

impl FromText for u128 {
    /// A decimal integer from 0 to `u128::MAX` is read; a `-` is not.
    open spec fn reads(raw: Seq<char>, out: Option<u128>) -> bool {
        out == match decimal_within(raw, 0, u128::MAX as int) {
            Some(value) => Some(value as u128),
            None => None,
        }
    }

    fn from_text(raw: &str) -> (out: Option<u128>) {
        match read_decimal(raw, 0, u128::MAX as u128) {
            Some((_, magnitude)) => Some(magnitude as u128),
            None => None,
        }
    }
}

impl FromText for usize {
    /// A decimal integer from 0 to `usize::MAX` is read; a `-` is not.
    open spec fn reads(raw: Seq<char>, out: Option<usize>) -> bool {
        out == match decimal_within(raw, 0, usize::MAX as int) {
            Some(value) => Some(value as usize),
            None => None,
        }
    }

    fn from_text(raw: &str) -> (out: Option<usize>) {
        match read_decimal(raw, 0, usize::MAX as u128) {
            Some((_, magnitude)) => Some(magnitude as usize),
            None => None,
        }
    }
}

impl FromText for i8 {
    /// A decimal integer from `i8::MIN` to `i8::MAX` is read.
    open spec fn reads(raw: Seq<char>, out: Option<i8>) -> bool {
        out == match decimal_within(raw, i8::MIN as int, i8::MAX as int) {
            Some(value) => Some(value as i8),
            None => None,
        }
    }

    fn from_text(raw: &str) -> (out: Option<i8>) {
        match read_decimal(raw, i8::MAX as u128 + 1, i8::MAX as u128) {
            Some((negative, magnitude)) => Some(signed_value(negative, magnitude) as i8),
            None => None,
        }
    }
}

impl FromText for i16 {
    /// A decimal integer from `i16::MIN` to `i16::MAX` is read.
    open spec fn reads(raw: Seq<char>, out: Option<i16>) -> bool {
        out == match decimal_within(raw, i16::MIN as int, i16::MAX as int) {
            Some(value) => Some(value as i16),
            None => None,
        }
    }

    fn from_text(raw: &str) -> (out: Option<i16>) {
        match read_decimal(raw, i16::MAX as u128 + 1, i16::MAX as u128) {
            Some((negative, magnitude)) => Some(signed_value(negative, magnitude) as i16),
            None => None,
        }
    }
}

impl FromText for i32 {
    /// A decimal integer from `i32::MIN` to `i32::MAX` is read.
    open spec fn reads(raw: Seq<char>, out: Option<i32>) -> bool {
        out == match decimal_within(raw, i32::MIN as int, i32::MAX as int) {
            Some(value) => Some(value as i32),
            None => None,
        }
    }

    fn from_text(raw: &str) -> (out: Option<i32>) {
        match read_decimal(raw, i32::MAX as u128 + 1, i32::MAX as u128) {
            Some((negative, magnitude)) => Some(signed_value(negative, magnitude) as i32),
            None => None,
        }
    }
}

impl FromText for i64 {
    /// A decimal integer from `i64::MIN` to `i64::MAX` is read.
    open spec fn reads(raw: Seq<char>, out: Option<i64>) -> bool {
        out == match decimal_within(raw, i64::MIN as int, i64::MAX as int) {
            Some(value) => Some(value as i64),
            None => None,
        }
    }

    fn from_text(raw: &str) -> (out: Option<i64>) {
        match read_decimal(raw, i64::MAX as u128 + 1, i64::MAX as u128) {
            Some((negative, magnitude)) => Some(signed_value(negative, magnitude) as i64),
            None => None,
        }
    }
}

impl FromText for i128 {
    /// A decimal integer from `i128::MIN` to `i128::MAX` is read.
    open spec fn reads(raw: Seq<char>, out: Option<i128>) -> bool {
        out == match decimal_within(raw, i128::MIN as int, i128::MAX as int) {
            Some(value) => Some(value as i128),
            None => None,
        }
    }

    fn from_text(raw: &str) -> (out: Option<i128>) {
        match read_decimal(raw, i128::MAX as u128 + 1, i128::MAX as u128) {
            Some((negative, magnitude)) => Some(signed_value(negative, magnitude) as i128),
            None => None,
        }
    }
}

impl FromText for isize {
    /// A decimal integer from `isize::MIN` to `isize::MAX` is read.
    open spec fn reads(raw: Seq<char>, out: Option<isize>) -> bool {
        out == match decimal_within(raw, isize::MIN as int, isize::MAX as int) {
            Some(value) => Some(value as isize),
            None => None,
        }
    }

    fn from_text(raw: &str) -> (out: Option<isize>) {
        match read_decimal(raw, isize::MAX as u128 + 1, isize::MAX as u128) {
            Some((negative, magnitude)) => Some(signed_value(negative, magnitude) as isize),
            None => None,
        }
    }
}

} // verus!
