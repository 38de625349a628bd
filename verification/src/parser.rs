//! The parser of PHC strings.

use crate::ascii::lemma_ascii_bytes;
use crate::codec::decode;
use crate::grammar::{
    base64_char, decoded_tail, lemma_run_end_is, more_pairs_at, name_char, pair_at, params_at,
    parse_text, run_end, split, tail_at, value_char, CharClass,
};
use crate::laws::lemma_split_is_ascii;
use crate::raw::{lemma_pairs_view_push, pairs_view, Pair, RawPHC, SaltAndHash};
use vstd::prelude::*;
use vstd::string::StrSliceExecFns;

verus! {

/// Whether `c` may stand in an identifier or a parameter name.
pub fn is_name_char(c: char) -> (yes: bool)
    ensures
        yes == name_char(c),
{
    match c {
        'a'..='z' | '0'..='9' | '-' => true,
        _ => false,
    }
}

/// Whether `c` may stand in a parameter value or a salt.
pub fn is_value_char(c: char) -> (yes: bool)
    ensures
        yes == value_char(c),
{
    match c {
        'a'..='z' | 'A'..='Z' | '0'..='9' | '/' | '+' | '.' | '-' => true,
        _ => false,
    }
}

/// Whether `c` may stand in a hash segment.
pub fn is_base_64_char(c: char) -> (yes: bool)
    ensures
        yes == base64_char(c),
{
    match c {
        'a'..='z' | 'A'..='Z' | '0'..='9' | '/' | '+' => true,
        _ => false,
    }
}

impl CharClass {
    /// Whether `c` belongs to the class.
    pub fn contains(self, c: char) -> (yes: bool)
        ensures
            yes == self.has(c),
    {
        match self {
            CharClass::Name => is_name_char(c),
            CharClass::Value => is_value_char(c),
            CharClass::Base64 => is_base_64_char(c),
        }
    }
}

/// The end of the longest run of `class` characters that starts at `from`.
fn take_while(raw: &str, from: usize, class: CharClass) -> (end: usize)
    requires
        raw.is_ascii(),
        from <= raw@.len(),
    ensures
        end == run_end(raw@, from as int, class),
        from <= end <= raw@.len() <= usize::MAX,
{
    let bytes = raw.as_bytes();
    proof {
        lemma_ascii_bytes(raw@);
    }
    let mut end = from;
    while end < bytes.len() && class.contains(bytes[end] as char)
        invariant
            from <= end <= bytes@.len(),
            bytes@.len() == raw@.len(),
            forall|i: int| 0 <= i < raw@.len() ==> (#[trigger] bytes@[i]) as char == raw@[i],
            forall|i: int| from <= i < end ==> class.has(#[trigger] raw@[i]),
        decreases bytes@.len() - end,
    {
        end += 1;
    }
    proof {
        lemma_run_end_is(raw@, from as int, end as int, class);
    }
    end
}

/// Whether the character `mark` stands at `at`.
fn stands_at(raw: &str, at: usize, mark: char) -> (yes: bool)
    requires
        raw.is_ascii(),
    ensures
        yes == (at < raw@.len() && raw@[at as int] == mark),
        raw@.len() <= usize::MAX,
{
    let bytes = raw.as_bytes();
    proof {
        lemma_ascii_bytes(raw@);
    }
    at < bytes.len() && bytes[at] as char == mark
}

/// The text between two positions, as a string of its own.
fn copy_of(raw: &str, from: usize, to: usize) -> (text: String)
    requires
        raw.is_ascii(),
        from <= to <= raw@.len(),
    ensures
        text@ == raw@.subrange(from as int, to as int),
{
    raw.substring_ascii(from, to).to_owned()
}

/// Reads one parameter, `name=value`, at `from`.
fn pair(raw: &str, from: usize) -> (found: Option<((String, String), usize)>)
    requires
        raw.is_ascii(),
        from <= raw@.len(),
    ensures
        match found {
            Some((read, end)) => pair_at(raw@, from as int) == Some(
                ((read.0@, read.1@), end as int),
            ) && end <= raw@.len(),
            None => pair_at(raw@, from as int) is None,
        },
{
    let name_end = take_while(raw, from, CharClass::Name);
    if name_end == from || !stands_at(raw, name_end, '=') {
        return None;
    }
    let value_end = take_while(raw, name_end + 1, CharClass::Value);
    if value_end == name_end + 1 {
        return None;
    }
    let name = copy_of(raw, from, name_end);
    let value = copy_of(raw, name_end + 1, value_end);
    Some(((name, value), value_end))
}

/// Reads the parameter segment at `from`: `$` and one or more parameters
/// separated by `,`. Where there is no such segment the list is empty and
/// nothing is consumed.
fn params(raw: &str, from: usize) -> (found: (Vec<(String, String)>, usize))
    requires
        raw.is_ascii(),
        from <= raw@.len(),
    ensures
        params_at(raw@, from as int) == (pairs_view(found.0@), found.1 as int),
        from <= found.1 <= raw@.len(),
{
    let mut list: Vec<(String, String)> = Vec::new();
    if !stands_at(raw, from, '$') {
        assert(pairs_view(list@) =~= Seq::<Pair>::empty());
        return (list, from);
    }
    let (first, start) = match pair(raw, from + 1) {
        Some(found) => found,
        None => {
            assert(pairs_view(list@) =~= Seq::<Pair>::empty());
            return (list, from);
        },
    };
    let ghost first_view: Pair = (first.0@, first.1@);
    list.push(first);
    let mut end = start;
    let mut more = true;
    let ghost mut read: Seq<Pair> = Seq::empty();
    assert(pairs_view(list@) =~= seq![first_view] + read);
    while more
        invariant
            raw.is_ascii(),
            from < start <= end <= raw@.len(),
            pairs_view(list@) == seq![first_view] + read,
            more_pairs_at(raw@, start as int) == (
                read + more_pairs_at(raw@, end as int).0,
                more_pairs_at(raw@, end as int).1,
            ),
            !more ==> more_pairs_at(raw@, end as int) == (Seq::<Pair>::empty(), end as int),
        decreases raw@.len() - end + (if more { 1int } else { 0int }),
    {
        if stands_at(raw, end, ',') {
            match pair(raw, end + 1) {
                Some((next, next_end)) => {
                    proof {
                        let next_view: Pair = (next.0@, next.1@);
                        let rest = more_pairs_at(raw@, next_end as int);
                        assert(more_pairs_at(raw@, end as int) == (
                            seq![next_view] + rest.0,
                            rest.1,
                        ));
                        assert(read + (seq![next_view] + rest.0) =~= read.push(next_view)
                            + rest.0);
                        lemma_pairs_view_push(list@, next);
                        assert((seq![first_view] + read).push(next_view) =~= seq![first_view]
                            + read.push(next_view));
                        read = read.push(next_view);
                    }
                    list.push(next);
                    end = next_end;
                },
                None => {
                    more = false;
                },
            }
        } else {
            more = false;
        }
    }
    assert(read + Seq::<Pair>::empty() =~= read);
    (list, end)
}

/// Reads the salt and hash segments at `from`: `$` and a salt, then
/// perhaps `$` and a hash in Base64, and says where they end. Where there
/// is no salt nothing is consumed. Where there is a hash segment that does
/// not decode, nothing is made of the segments.
fn salt_and_hash(raw: &str, from: usize) -> (found: (Option<SaltAndHash>, usize))
    requires
        raw.is_ascii(),
        from <= raw@.len(),
    ensures
        ({
            let (salt, hash, end) = tail_at(raw@, from as int);
            &&& found.1 == end
            &&& match found.0 {
                Some(read) => decoded_tail(salt, hash) == Some(read@),
                None => decoded_tail(salt, hash) is None,
            }
        }),
{
    if !stands_at(raw, from, '$') {
        return (SaltAndHash::from_decoded(None), from);
    }
    let salt_end = take_while(raw, from + 1, CharClass::Value);
    if salt_end == from + 1 {
        return (SaltAndHash::from_decoded(None), from);
    }
    let salt = copy_of(raw, from + 1, salt_end);
    if !stands_at(raw, salt_end, '$') {
        return (SaltAndHash::from_decoded(Some((salt, None))), salt_end);
    }
    let hash_end = take_while(raw, salt_end + 1, CharClass::Base64);
    if hash_end == salt_end + 1 {
        return (SaltAndHash::from_decoded(Some((salt, None))), salt_end);
    }
    let decoded = decode(raw.substring_ascii(salt_end + 1, hash_end).as_bytes());
    (SaltAndHash::from_decoded(Some((salt, Some(decoded)))), hash_end)
}

/// Parses a PHC string.
///
/// Succeeds on the strings of the grammar whose hash segment, if there is
/// one, is valid unpadded Base64, and gives the record that
/// [`parse_text`] defines. Fails on every other string, so also where
/// characters are left over after the last segment.
pub fn parse_phc(raw: &str) -> (parsed: Result<RawPHC, ()>)
    ensures
        match parsed {
            Ok(phc) => parse_text(raw@) == Some(phc@),
            Err(_) => parse_text(raw@) is None,
        },
{
    if !raw.is_ascii() {
        proof {
            if split(raw@) is Some {
                lemma_split_is_ascii(raw@);
            }
        }
        return Err(());
    }
    if !stands_at(raw, 0, '$') {
        return Err(());
    }
    let id_end = take_while(raw, 1, CharClass::Name);
    if id_end == 1 {
        return Err(());
    }
    let id = copy_of(raw, 1, id_end);
    let (pairs, params_end) = params(raw, id_end);
    let (tail, end) = salt_and_hash(raw, params_end);
    proof {
        lemma_ascii_bytes(raw@);
    }
    if end != raw.as_bytes().len() {
        return Err(());
    }
    match tail {
        Some(tail) => Ok(RawPHC::from_parts(id, pairs, tail)),
        None => Err(()),
    }
}

} // verus!
