//! The grammar of PHC strings, as mathematics.
//!
//! ```text
//! phc    := '$' id params? tail?
//! id     := name-char+
//! params := '$' param (',' param)*
//! param  := name-char+ '=' value-char+
//! tail   := '$' value-char+ ('$' base64-char+)?
//! ```
//!
//! [`split`] cuts a string into the segments of this grammar, taking each
//! run of characters as far as it goes. [`parse_text`] decodes the hash
//! segment on top of that. That `split` accepts exactly the strings that
//! are the text of well-formed segments, and gives back those segments, is
//! proved in [`crate::laws`].

use crate::codec::decoding;
use crate::raw::{params_text, Pair, RawPhcView, SaltAndHashView};
use vstd::prelude::*;
use vstd::utf8::encode_utf8;

verus! {

/// Characters of identifiers and parameter names: `[a-z0-9-]`.
pub open spec fn name_char(c: char) -> bool {
    ('a' <= c && c <= 'z') || ('0' <= c && c <= '9') || c == '-'
}

/// Characters of parameter values and salts: `[a-zA-Z0-9/+.-]`.
pub open spec fn value_char(c: char) -> bool {
    ('a' <= c && c <= 'z') || ('A' <= c && c <= 'Z') || ('0' <= c && c <= '9') || c == '/' || c
        == '+' || c == '.' || c == '-'
}

/// Characters of the hash segment: `[a-zA-Z0-9/+]`.
pub open spec fn base64_char(c: char) -> bool {
    ('a' <= c && c <= 'z') || ('A' <= c && c <= 'Z') || ('0' <= c && c <= '9') || c == '/' || c
        == '+'
}

/// The three character classes of the grammar.
#[derive(Clone, Copy, Debug, PartialEq, Eq)]
pub enum CharClass {
    /// `[a-z0-9-]`
    Name,
    /// `[a-zA-Z0-9/+.-]`
    Value,
    /// `[a-zA-Z0-9/+]`
    Base64,
}

impl CharClass {
    /// Whether `c` belongs to the class.
    pub open spec fn has(self, c: char) -> bool {
        match self {
            CharClass::Name => name_char(c),
            CharClass::Value => value_char(c),
            CharClass::Base64 => base64_char(c),
        }
    }
}

/// Whether `text` is a token of the class: at least one character, and all
/// of them in the class.
pub open spec fn token(text: Seq<char>, class: CharClass) -> bool {
    text.len() > 0 && forall|i: int| 0 <= i < text.len() ==> class.has(#[trigger] text[i])
}

/// Whether each pair of the list is a name token and a value token.
pub open spec fn pairs_well_formed(pairs: Seq<Pair>) -> bool {
    forall|i: int|
        0 <= i < pairs.len() ==> token((#[trigger] pairs[i]).0, CharClass::Name) && token(
            pairs[i].1,
            CharClass::Value,
        )
}

/// The segments of a PHC string, with the hash still in Base64.
pub struct Segments {
    /// The identifier.
    pub id: Seq<char>,
    /// The parameters, in order.
    pub params: Seq<Pair>,
    /// The salt, where there is one.
    pub salt: Option<Seq<char>>,
    /// The Base64 text of the hash, where there is one.
    pub hash: Option<Seq<char>>,
}

impl Segments {
    /// Whether every segment is a token of its class, and a hash comes only
    /// with a salt.
    pub open spec fn well_formed(self) -> bool {
        &&& token(self.id, CharClass::Name)
        &&& pairs_well_formed(self.params)
        &&& self.salt matches Some(salt) ==> token(salt, CharClass::Value)
        &&& self.hash matches Some(hash) ==> self.salt is Some && token(hash, CharClass::Base64)
    }

    /// The text of the salt and hash segments.
    pub open spec fn tail_text(self) -> Seq<char> {
        match (self.salt, self.hash) {
            (Some(salt), Some(hash)) => seq!['$'] + salt + seq!['$'] + hash,
            (Some(salt), None) => seq!['$'] + salt,
            (None, _) => Seq::empty(),
        }
    }

    /// The string that the segments make up.
    pub open spec fn text(self) -> Seq<char> {
        seq!['$'] + self.id + params_text(self.params) + self.tail_text()
    }

    /// The record that the segments stand for: the salt taken as ASCII, the
    /// hash decoded from Base64. There is none where the hash does not
    /// decode.
    pub open spec fn decoded(self) -> Option<RawPhcView> {
        match decoded_tail(self.salt, self.hash) {
            Some(salt_and_hash) => Some(
                RawPhcView { id: self.id, params: self.params, salt_and_hash },
            ),
            None => None,
        }
    }
}

/// The salt and hash that the two segments stand for: the salt taken as
/// ASCII, the hash decoded from Base64. There is none where the hash does
/// not decode.
pub open spec fn decoded_tail(salt: Option<Seq<char>>, hash: Option<Seq<char>>) -> Option<
    SaltAndHashView,
> {
    SaltAndHashView::from_decoded(
        match (salt, hash) {
            (Some(salt), Some(hash)) => Some((salt, Some(decoding(encode_utf8(hash))))),
            (Some(salt), None) => Some((salt, None)),
            (None, _) => None,
        },
    )
}

/// The end of the longest run of `class` characters that starts at `from`.
pub open spec fn run_end(s: Seq<char>, from: int, class: CharClass) -> int
    decreases s.len() - from,
{
    if 0 <= from < s.len() && class.has(s[from]) {
        run_end(s, from + 1, class)
    } else {
        from
    }
}

/// A run ends at or after its start and within the string, holds only
/// characters of its class, and stops at the end of the string or before a
/// character outside the class.
pub proof fn lemma_run_end(s: Seq<char>, from: int, class: CharClass)
    requires
        0 <= from <= s.len(),
    ensures
        from <= run_end(s, from, class) <= s.len(),
        forall|i: int| from <= i < run_end(s, from, class) ==> class.has(#[trigger] s[i]),
        run_end(s, from, class) < s.len() ==> !class.has(s[run_end(s, from, class)]),
    decreases s.len() - from,
{
    if from < s.len() && class.has(s[from]) {
        lemma_run_end(s, from + 1, class);
    }
}

/// A position that a run of `class` characters leads up to, and where the
/// string ends or a character outside the class stands, is the end of that
/// run.
pub proof fn lemma_run_end_is(s: Seq<char>, from: int, end: int, class: CharClass)
    requires
        0 <= from <= end <= s.len(),
        forall|i: int| from <= i < end ==> class.has(#[trigger] s[i]),
        end < s.len() ==> !class.has(s[end]),
    ensures
        run_end(s, from, class) == end,
    decreases end - from,
{
    if from < end {
        lemma_run_end_is(s, from + 1, end, class);
    }
}

/// The parameter `name=value` that starts at `from`, and where it ends.
pub open spec fn pair_at(s: Seq<char>, from: int) -> Option<(Pair, int)> {
    let name_end = run_end(s, from, CharClass::Name);
    let value_end = run_end(s, name_end + 1, CharClass::Value);
    if 0 <= from < name_end && name_end < s.len() && s[name_end] == '=' && name_end + 1
        < value_end {
        Some(((s.subrange(from, name_end), s.subrange(name_end + 1, value_end)), value_end))
    } else {
        None
    }
}

/// The parameters that follow at `from`, each after a `,`, and where the
/// last of them ends. A `,` that no parameter follows is not taken.
pub open spec fn more_pairs_at(s: Seq<char>, from: int) -> (Seq<Pair>, int)
    decreases s.len() - from,
{
    if 0 <= from < s.len() && s[from] == ',' {
        match pair_at(s, from + 1) {
            Some((pair, end)) => {
                proof {
                    lemma_run_end(s, run_end(s, from + 1, CharClass::Name) + 1, CharClass::Value);
                }
                let rest = more_pairs_at(s, end);
                (seq![pair] + rest.0, rest.1)
            },
            None => (Seq::empty(), from),
        }
    } else {
        (Seq::empty(), from)
    }
}

/// The parameter segment at `from`, and where it ends. Where no
/// parameter follows a `$` at `from`, the segment is absent: the list is
/// empty and nothing is taken.
pub open spec fn params_at(s: Seq<char>, from: int) -> (Seq<Pair>, int) {
    if 0 <= from < s.len() && s[from] == '$' {
        match pair_at(s, from + 1) {
            Some((pair, end)) => {
                let rest = more_pairs_at(s, end);
                (seq![pair] + rest.0, rest.1)
            },
            None => (Seq::empty(), from),
        }
    } else {
        (Seq::empty(), from)
    }
}

/// The salt and hash segments at `from`, with the hash still in Base64, and
/// where they end. A `$` that no salt follows is not taken, nor is one
/// after the salt that no hash follows.
pub open spec fn tail_at(s: Seq<char>, from: int) -> (Option<Seq<char>>, Option<Seq<char>>, int) {
    let salt_end = run_end(s, from + 1, CharClass::Value);
    let hash_end = run_end(s, salt_end + 1, CharClass::Base64);
    if !(0 <= from < s.len() && s[from] == '$' && from + 1 < salt_end) {
        (None, None, from)
    } else if !(salt_end < s.len() && s[salt_end] == '$' && salt_end + 1 < hash_end) {
        (Some(s.subrange(from + 1, salt_end)), None, salt_end)
    } else {
        (Some(s.subrange(from + 1, salt_end)), Some(s.subrange(salt_end + 1, hash_end)), hash_end)
    }
}

/// The segments of `s`, where `s` is a PHC string from its first character
/// to its last: `$` and an identifier, then the parameter segment, then the
/// salt and hash segments, and nothing after them.
pub open spec fn split(s: Seq<char>) -> Option<Segments> {
    let id_end = run_end(s, 1, CharClass::Name);
    let (params, params_end) = params_at(s, id_end);
    let (salt, hash, end) = tail_at(s, params_end);
    if s.len() > 0 && s[0] == '$' && 1 < id_end && end == s.len() {
        Some(Segments { id: s.subrange(1, id_end), params, salt, hash })
    } else {
        None
    }
}

/// The record that the PHC string `s` stands for, or `None` where `s` is
/// not a PHC string or its hash segment does not decode.
pub open spec fn parse_text(s: Seq<char>) -> Option<RawPhcView> {
    match split(s) {
        Some(segments) => segments.decoded(),
        None => None,
    }
}

} // verus!
