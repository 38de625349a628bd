//! What holds of the grammar and of the text of a record.
//!
//! - [`lemma_split_sound`], [`lemma_split_complete`] and
//!   [`lemma_split_exact`]: the strings that are accepted are exactly the
//!   texts of well-formed segments, and no string has two readings.
//! - [`lemma_round_trip`]: parsing and then writing gives the string back.
//! - [`lemma_text_parses`]: writing and then parsing gives the record back.
//! - [`lemma_parsed_is_well_formed`], [`lemma_split_is_ascii`]: what every
//!   accepted string and every parsed record is made of.
//! - [`lemma_empty_params_omitted`]: a record without parameters is written
//!   without a parameter segment.
//! - [`lemma_hash_has_salt`]: there is no hash without a salt.

use crate::codec::{base64_text, decoding};
use crate::grammar::{
    lemma_run_end, lemma_run_end_is, more_pairs_at, pair_at, pairs_well_formed, params_at,
    parse_text, run_end, split, token, value_char, base64_char, CharClass, Segments,
};
use crate::raw::{more_pairs_text, pair_text, params_text, Pair, RawPhcView, SaltAndHashView};
use crate::salt::SaltView;
use vstd::prelude::*;
use vstd::utf8::{encode_utf8, is_ascii_chars};

verus! {

/// What [`pair_at`] finds is a well-formed parameter, spelled out in the
/// string from `from` up to the end that it reports, where the value's run
/// stops.
proof fn lemma_pair_at_sound(s: Seq<char>, from: int)
    requires
        pair_at(s, from) is Some,
    ensures
        ({
            let (pair, end) = pair_at(s, from).unwrap();
            &&& token(pair.0, CharClass::Name)
            &&& token(pair.1, CharClass::Value)
            &&& 0 <= from < end <= s.len()
            &&& s.subrange(from, end) == pair_text(pair)
            &&& end == run_end(s, run_end(s, from, CharClass::Name) + 1, CharClass::Value)
        }),
{
    let name_end = run_end(s, from, CharClass::Name);
    let value_end = run_end(s, name_end + 1, CharClass::Value);
    lemma_run_end(s, from, CharClass::Name);
    lemma_run_end(s, name_end + 1, CharClass::Value);
    let name = s.subrange(from, name_end);
    let value = s.subrange(name_end + 1, value_end);
    assert forall|i: int| 0 <= i < name.len() implies CharClass::Name.has(#[trigger] name[i]) by {
        assert(name[i] == s[from + i]);
    }
    assert forall|i: int| 0 <= i < value.len() implies CharClass::Value.has(
        #[trigger] value[i],
    ) by {
        assert(value[i] == s[name_end + 1 + i]);
    }
    assert(s.subrange(from, value_end) =~= name + seq!['='] + value);
}

/// What [`more_pairs_at`] finds are well-formed parameters, spelled out in
/// the string from `from` up to the end that it reports.
proof fn lemma_more_pairs_at_sound(s: Seq<char>, from: int)
    requires
        0 <= from <= s.len(),
    ensures
        ({
            let (pairs, end) = more_pairs_at(s, from);
            &&& from <= end <= s.len()
            &&& pairs_well_formed(pairs)
            &&& s.subrange(from, end) == more_pairs_text(pairs)
        }),
    decreases s.len() - from,
{
    let (pairs, end) = more_pairs_at(s, from);
    if from < s.len() && s[from] == ',' && pair_at(s, from + 1) is Some {
        let (pair, pair_end) = pair_at(s, from + 1).unwrap();
        lemma_pair_at_sound(s, from + 1);
        lemma_more_pairs_at_sound(s, pair_end);
        let rest = more_pairs_at(s, pair_end).0;
        assert(pairs =~= seq![pair] + rest);
        assert(pairs.drop_first() =~= rest);
        assert forall|i: int| 0 <= i < pairs.len() implies token(
            (#[trigger] pairs[i]).0,
            CharClass::Name,
        ) && token(pairs[i].1, CharClass::Value) by {
            if i > 0 {
                assert(pairs[i] == rest[i - 1]);
            }
        }
        assert(s.subrange(from, end) =~= seq![','] + s.subrange(from + 1, pair_end) + s.subrange(
            pair_end,
            end,
        ));
    } else {
        assert(s.subrange(from, end) =~= Seq::<char>::empty());
    }
}

/// What [`params_at`] finds are well-formed parameters, spelled out in the
/// string from `from` up to the end that it reports.
proof fn lemma_params_at_sound(s: Seq<char>, from: int)
    requires
        0 <= from <= s.len(),
    ensures
        ({
            let (pairs, end) = params_at(s, from);
            &&& from <= end <= s.len()
            &&& pairs_well_formed(pairs)
            &&& s.subrange(from, end) == params_text(pairs)
        }),
{
    let (pairs, end) = params_at(s, from);
    if from < s.len() && s[from] == '$' && pair_at(s, from + 1) is Some {
        let (pair, pair_end) = pair_at(s, from + 1).unwrap();
        lemma_pair_at_sound(s, from + 1);
        lemma_more_pairs_at_sound(s, pair_end);
        let rest = more_pairs_at(s, pair_end).0;
        assert(pairs =~= seq![pair] + rest);
        assert(pairs.drop_first() =~= rest);
        assert forall|i: int| 0 <= i < pairs.len() implies token(
            (#[trigger] pairs[i]).0,
            CharClass::Name,
        ) && token(pairs[i].1, CharClass::Value) by {
            if i > 0 {
                assert(pairs[i] == rest[i - 1]);
            }
        }
        assert(s.subrange(from, end) =~= seq!['$'] + s.subrange(from + 1, pair_end) + s.subrange(
            pair_end,
            end,
        ));
    } else {
        assert(s.subrange(from, end) =~= Seq::<char>::empty());
    }
}

/// Every string that [`split`] accepts is the text of the segments that it
/// gives, and those segments are well formed.
pub proof fn lemma_split_sound(s: Seq<char>)
    requires
        split(s) is Some,
    ensures
        split(s).unwrap().well_formed(),
        split(s).unwrap().text() == s,
{
    let segments = split(s).unwrap();
    let id_end = run_end(s, 1, CharClass::Name);
    lemma_run_end(s, 1, CharClass::Name);
    let (params, params_end) = params_at(s, id_end);
    lemma_params_at_sound(s, id_end);
    let id = s.subrange(1, id_end);
    assert forall|i: int| 0 <= i < id.len() implies CharClass::Name.has(#[trigger] id[i]) by {
        assert(id[i] == s[1 + i]);
    }
    let head = seq!['$'] + id + params_text(params);
    assert(head =~= s.subrange(0, params_end)) by {
        assert(s.subrange(0, params_end) =~= seq!['$'] + id + s.subrange(id_end, params_end));
    }
    if segments.salt is Some {
        let salt_end = run_end(s, params_end + 1, CharClass::Value);
        lemma_run_end(s, params_end + 1, CharClass::Value);
        let salt = s.subrange(params_end + 1, salt_end);
        assert forall|i: int| 0 <= i < salt.len() implies CharClass::Value.has(
            #[trigger] salt[i],
        ) by {
            assert(salt[i] == s[params_end + 1 + i]);
        }
        if segments.hash is Some {
            let hash_end = run_end(s, salt_end + 1, CharClass::Base64);
            lemma_run_end(s, salt_end + 1, CharClass::Base64);
            let hash = s.subrange(salt_end + 1, hash_end);
            assert forall|i: int| 0 <= i < hash.len() implies CharClass::Base64.has(
                #[trigger] hash[i],
            ) by {
                assert(hash[i] == s[salt_end + 1 + i]);
            }
            assert(s =~= s.subrange(0, params_end) + (seq!['$'] + salt + seq!['$'] + hash));
        } else {
            assert(s =~= s.subrange(0, params_end) + (seq!['$'] + salt));
        }
    } else {
        assert(s =~= s.subrange(0, params_end) + Seq::<char>::empty());
    }
    assert(segments.text() =~= head + segments.tail_text());
}

/// A well-formed parameter that is spelled out at `from`, with the string
/// ending or a character outside the values after it, is what [`pair_at`]
/// finds there.
proof fn lemma_pair_at_complete(s: Seq<char>, from: int, pair: Pair)
    requires
        token(pair.0, CharClass::Name),
        token(pair.1, CharClass::Value),
        0 <= from,
        from + pair_text(pair).len() <= s.len(),
        s.subrange(from, from + pair_text(pair).len()) == pair_text(pair),
        from + pair_text(pair).len() < s.len() ==> !value_char(s[from + pair_text(pair).len()]),
    ensures
        pair_at(s, from) == Some((pair, from + pair_text(pair).len())),
{
    let text = pair_text(pair);
    let end: int = from + text.len();
    let name_len: int = pair.0.len() as int;
    let name_end: int = from + name_len;
    assert forall|k: int| 0 <= k < text.len() implies #[trigger] s[from + k] == text[k] by {
        assert(s.subrange(from, end)[k] == s[from + k]);
    }
    assert forall|i: int| from <= i < name_end implies CharClass::Name.has(#[trigger] s[i]) by {
        assert(s[from + (i - from)] == text[i - from]);
        assert(text[i - from] == pair.0[i - from]);
    }
    assert(s[name_end] == '=') by {
        assert(s[from + name_len] == text[name_len]);
    }
    lemma_run_end_is(s, from, name_end, CharClass::Name);
    assert forall|i: int| name_end + 1 <= i < end implies CharClass::Value.has(#[trigger] s[i]) by {
        assert(s[from + (i - from)] == text[i - from]);
        assert(text[i - from] == pair.1[i - name_end - 1]);
    }
    lemma_run_end_is(s, name_end + 1, end, CharClass::Value);
    assert(s.subrange(from, name_end) =~= pair.0) by {
        assert forall|k: int| 0 <= k < pair.0.len() implies s.subrange(from, name_end)[k]
            == pair.0[k] by {
            assert(s[from + k] == text[k]);
        }
    }
    assert(s.subrange(name_end + 1, end) =~= pair.1) by {
        assert forall|k: int| 0 <= k < pair.1.len() implies s.subrange(name_end + 1, end)[k]
            == pair.1[k] by {
            assert(s[from + (name_len + 1 + k)] == text[name_len + 1 + k]);
        }
    }
}

/// Well-formed parameters that are spelled out at `from`, each after a `,`,
/// with the string ending or a character other than `,` and outside the
/// values after them, are what [`more_pairs_at`] finds there.
proof fn lemma_more_pairs_at_complete(s: Seq<char>, from: int, pairs: Seq<Pair>)
    requires
        pairs_well_formed(pairs),
        0 <= from,
        from + more_pairs_text(pairs).len() <= s.len(),
        s.subrange(from, from + more_pairs_text(pairs).len()) == more_pairs_text(pairs),
        from + more_pairs_text(pairs).len() < s.len() ==> {
            let next = s[from + more_pairs_text(pairs).len()];
            !value_char(next) && next != ','
        },
    ensures
        more_pairs_at(s, from) == (pairs, from + more_pairs_text(pairs).len()),
    decreases pairs.len(),
{
    let text = more_pairs_text(pairs);
    let end: int = from + text.len();
    if pairs.len() == 0 {
        assert(pairs =~= Seq::<Pair>::empty());
    } else {
        let pair = pairs[0];
        let rest = pairs.drop_first();
        let pair_len: int = pair_text(pair).len() as int;
        let pair_end: int = from + 1 + pair_len;
        let rest_text = more_pairs_text(rest);
        assert(text =~= seq![','] + pair_text(pair) + rest_text);
        assert forall|k: int| 0 <= k < text.len() implies #[trigger] s[from + k] == text[k] by {
            assert(s.subrange(from, end)[k] == s[from + k]);
        }
        assert(s[from] == ',') by {
            assert(s[from + 0] == text[0]);
        }
        assert(s.subrange(from + 1, pair_end) =~= pair_text(pair)) by {
            assert forall|k: int| 0 <= k < pair_text(pair).len() implies s.subrange(
                from + 1,
                pair_end,
            )[k] == pair_text(pair)[k] by {
                assert(s[from + (1 + k)] == text[1 + k]);
            }
        }
        assert(s.subrange(pair_end, end) =~= rest_text) by {
            assert forall|k: int| 0 <= k < rest_text.len() implies s.subrange(pair_end, end)[k]
                == rest_text[k] by {
                assert(s[from + (1 + pair_len + k)] == text[1 + pair_len + k]);
            }
        }
        if rest.len() > 0 {
            assert(rest_text[0] == ',');
            assert(s[pair_end] == ',') by {
                assert(s[from + (1 + pair_len)] == text[1 + pair_len]);
            }
        } else {
            assert(rest_text =~= Seq::<char>::empty());
        }
        assert forall|i: int| 0 <= i < rest.len() implies token(
            (#[trigger] rest[i]).0,
            CharClass::Name,
        ) && token(rest[i].1, CharClass::Value) by {
            assert(rest[i] == pairs[i + 1]);
        }
        lemma_pair_at_complete(s, from + 1, pair);
        lemma_more_pairs_at_complete(s, pair_end, rest);
        assert(seq![pair] + rest =~= pairs);
    }
}

/// A parameter segment with at least one well-formed parameter that is
/// spelled out at `from`, with the string ending or a `$` after it, is what
/// [`params_at`] finds there.
proof fn lemma_params_at_complete(s: Seq<char>, from: int, pairs: Seq<Pair>)
    requires
        pairs.len() > 0,
        pairs_well_formed(pairs),
        0 <= from,
        from + params_text(pairs).len() <= s.len(),
        s.subrange(from, from + params_text(pairs).len()) == params_text(pairs),
        from + params_text(pairs).len() < s.len() ==> s[from + params_text(pairs).len()] == '$',
    ensures
        params_at(s, from) == (pairs, from + params_text(pairs).len()),
{
    let text = params_text(pairs);
    let end: int = from + text.len();
    let pair = pairs[0];
    let rest = pairs.drop_first();
    let pair_len: int = pair_text(pair).len() as int;
    let pair_end: int = from + 1 + pair_len;
    let rest_text = more_pairs_text(rest);
    assert(text =~= seq!['$'] + pair_text(pair) + rest_text);
    assert forall|k: int| 0 <= k < text.len() implies #[trigger] s[from + k] == text[k] by {
        assert(s.subrange(from, end)[k] == s[from + k]);
    }
    assert(s[from] == '$') by {
        assert(s[from + 0] == text[0]);
    }
    assert(s.subrange(from + 1, pair_end) =~= pair_text(pair)) by {
        assert forall|k: int| 0 <= k < pair_text(pair).len() implies s.subrange(
            from + 1,
            pair_end,
        )[k] == pair_text(pair)[k] by {
            assert(s[from + (1 + k)] == text[1 + k]);
        }
    }
    assert(s.subrange(pair_end, end) =~= rest_text) by {
        assert forall|k: int| 0 <= k < rest_text.len() implies s.subrange(pair_end, end)[k]
            == rest_text[k] by {
            assert(s[from + (1 + pair_len + k)] == text[1 + pair_len + k]);
        }
    }
    if rest.len() > 0 {
        assert(rest_text[0] == ',');
        assert(s[pair_end] == ',') by {
            assert(s[from + (1 + pair_len)] == text[1 + pair_len]);
        }
    } else {
        assert(rest_text =~= Seq::<char>::empty());
    }
    assert forall|i: int| 0 <= i < rest.len() implies token(
        (#[trigger] rest[i]).0,
        CharClass::Name,
    ) && token(rest[i].1, CharClass::Value) by {
        assert(rest[i] == pairs[i + 1]);
    }
    lemma_pair_at_complete(s, from + 1, pair);
    lemma_more_pairs_at_complete(s, pair_end, rest);
    assert(seq![pair] + rest =~= pairs);
}

/// Where a run of value characters follows a `$` at `from` and the string
/// ends or goes on with `$` after the run, no parameter segment stands at
/// `from`: a salt is not mistaken for a parameter.
proof fn lemma_params_at_salt(s: Seq<char>, from: int, salt_end: int)
    requires
        0 <= from < salt_end <= s.len(),
        s[from] == '$',
        forall|i: int| from < i < salt_end ==> value_char(#[trigger] s[i]),
        salt_end < s.len() ==> s[salt_end] == '$',
    ensures
        params_at(s, from) == (Seq::<Pair>::empty(), from),
{
    let name_end = run_end(s, from + 1, CharClass::Name);
    lemma_run_end(s, from + 1, CharClass::Name);
    if name_end > salt_end {
        assert(CharClass::Name.has(s[salt_end]));
    }
    if name_end < salt_end {
        assert(value_char(s[name_end]));
    }
}

/// The text of well-formed segments is a string that [`split`] accepts, and
/// `split` gives back those segments.
pub proof fn lemma_split_complete(segments: Segments)
    requires
        segments.well_formed(),
    ensures
        split(segments.text()) == Some(segments),
{
    let s = segments.text();
    let id = segments.id;
    let id_end: int = 1 + id.len() as int;
    let params_part = params_text(segments.params);
    let params_end: int = id_end + params_part.len();
    let tail = segments.tail_text();
    assert(s =~= seq!['$'] + id + params_part + tail);
    assert(s.len() == params_end + tail.len());
    assert(s[0] == '$');
    assert forall|i: int| 1 <= i < id_end implies CharClass::Name.has(#[trigger] s[i]) by {
        assert(s[i] == id[i - 1]);
    }
    assert forall|k: int| 0 <= k < params_part.len() implies #[trigger] s[id_end + k]
        == params_part[k] by {}
    assert forall|k: int| 0 <= k < tail.len() implies #[trigger] s[params_end + k] == tail[k] by {}
    if segments.params.len() > 0 {
        assert(params_part[0] == '$');
        assert(s[id_end + 0] == params_part[0]);
    }
    if tail.len() > 0 {
        assert(tail[0] == '$');
        assert(s[params_end + 0] == tail[0]);
    }
    lemma_run_end_is(s, 1, id_end, CharClass::Name);
    assert(s.subrange(1, id_end) =~= id);
    match segments.salt {
        Some(salt) => {
            let salt_len: int = salt.len() as int;
            let salt_end: int = params_end + 1 + salt_len;
            assert forall|i: int| params_end < i < salt_end implies value_char(#[trigger] s[i]) by {
                assert(s[params_end + (i - params_end)] == tail[i - params_end]);
                assert(tail[i - params_end] == salt[i - params_end - 1]);
            }
            assert(s.subrange(params_end + 1, salt_end) =~= salt) by {
                assert forall|k: int| 0 <= k < salt.len() implies s.subrange(
                    params_end + 1,
                    salt_end,
                )[k] == salt[k] by {
                    assert(s[params_end + (1 + k)] == tail[1 + k]);
                }
            }
            match segments.hash {
                Some(hash) => {
                    assert(tail =~= seq!['$'] + salt + seq!['$'] + hash);
                    assert(s[salt_end] == '$') by {
                        assert(s[params_end + (1 + salt_len)] == tail[1 + salt_len]);
                    }
                    assert forall|i: int| salt_end < i < s.len() implies base64_char(
                        #[trigger] s[i],
                    ) by {
                        assert(s[params_end + (i - params_end)] == tail[i - params_end]);
                        assert(tail[i - params_end] == hash[i - salt_end - 1]);
                    }
                    lemma_run_end_is(s, params_end + 1, salt_end, CharClass::Value);
                    lemma_run_end_is(s, salt_end + 1, s.len() as int, CharClass::Base64);
                    assert(s.subrange(salt_end + 1, s.len() as int) =~= hash) by {
                        assert forall|k: int| 0 <= k < hash.len() implies s.subrange(
                            salt_end + 1,
                            s.len() as int,
                        )[k] == hash[k] by {
                            assert(s[params_end + (2 + salt_len + k)] == tail[2 + salt_len + k]);
                        }
                    }
                },
                None => {
                    assert(tail =~= seq!['$'] + salt);
                    lemma_run_end_is(s, params_end + 1, salt_end, CharClass::Value);
                },
            }
            if segments.params.len() == 0 {
                assert(params_part =~= Seq::<char>::empty());
                lemma_params_at_salt(s, id_end, salt_end);
                assert(segments.params =~= Seq::<Pair>::empty());
            }
        },
        None => {
            assert(tail =~= Seq::<char>::empty());
            if segments.params.len() == 0 {
                assert(params_part =~= Seq::<char>::empty());
                assert(segments.params =~= Seq::<Pair>::empty());
            }
        },
    }
    if segments.params.len() > 0 {
        assert(s.subrange(id_end, params_end) =~= params_part);
        lemma_params_at_complete(s, id_end, segments.params);
    }
}

/// [`split`] accepts exactly the strings that are the text of well-formed
/// segments, and gives those segments: no string is the text of two
/// different well-formed lists of segments.
pub proof fn lemma_split_exact(s: Seq<char>, segments: Segments)
    ensures
        split(s) == Some(segments) <==> segments.well_formed() && segments.text() == s,
{
    if split(s) == Some(segments) {
        lemma_split_sound(s);
    }
    if segments.well_formed() && segments.text() == s {
        lemma_split_complete(segments);
    }
}

/// The parameters after the first are written in ASCII.
proof fn lemma_more_pairs_text_ascii(pairs: Seq<Pair>)
    requires
        pairs_well_formed(pairs),
    ensures
        is_ascii_chars(more_pairs_text(pairs)),
    decreases pairs.len(),
{
    if pairs.len() > 0 {
        let rest = pairs.drop_first();
        assert forall|i: int| 0 <= i < rest.len() implies token(
            (#[trigger] rest[i]).0,
            CharClass::Name,
        ) && token(rest[i].1, CharClass::Value) by {
            assert(rest[i] == pairs[i + 1]);
        }
        lemma_more_pairs_text_ascii(rest);
        assert(token(pairs[0].0, CharClass::Name) && token(pairs[0].1, CharClass::Value));
    }
}

/// The text of well-formed segments is written in ASCII.
pub proof fn lemma_text_is_ascii(segments: Segments)
    requires
        segments.well_formed(),
    ensures
        is_ascii_chars(segments.text()),
{
    let pairs = segments.params;
    if pairs.len() > 0 {
        let rest = pairs.drop_first();
        assert forall|i: int| 0 <= i < rest.len() implies token(
            (#[trigger] rest[i]).0,
            CharClass::Name,
        ) && token(rest[i].1, CharClass::Value) by {
            assert(rest[i] == pairs[i + 1]);
        }
        lemma_more_pairs_text_ascii(rest);
        assert(token(pairs[0].0, CharClass::Name) && token(pairs[0].1, CharClass::Value));
    }
    assert(is_ascii_chars(params_text(pairs)));
    assert(is_ascii_chars(segments.tail_text()));
}

/// Every string that [`split`] accepts is written in ASCII.
pub proof fn lemma_split_is_ascii(s: Seq<char>)
    requires
        split(s) is Some,
    ensures
        is_ascii_chars(s),
{
    lemma_split_sound(s);
    lemma_text_is_ascii(split(s).unwrap());
}

/// Every record that a string parses to has an identifier and parameters
/// that are tokens of their classes, and its salt, if it has one, is an
/// ASCII salt that is a value token.
pub proof fn lemma_parsed_is_well_formed(s: Seq<char>)
    requires
        parse_text(s) is Some,
    ensures
        token(parse_text(s).unwrap().id, CharClass::Name),
        pairs_well_formed(parse_text(s).unwrap().params),
        parse_text(s).unwrap().salt_and_hash.salt() matches Some(salt) ==> salt matches SaltView::Ascii(
            text,
        ) && token(text, CharClass::Value),
{
    lemma_split_sound(s);
}

/// Whether a hash segment is the text that the encoder gives for the bytes
/// that the segment decodes to.
pub open spec fn canonical_hash(hash: Seq<char>) -> bool {
    decoding(encode_utf8(hash)) matches Some(bytes) && base64_text(bytes) == hash
}

/// Round trip: the text of the record that a string parses to is that
/// string, character for character, provided that the hash segment of the
/// string, if it has one, is the encoder's own text for its bytes.
pub proof fn lemma_round_trip(s: Seq<char>)
    requires
        parse_text(s) is Some,
        split(s).unwrap().hash matches Some(hash) ==> canonical_hash(hash),
    ensures
        parse_text(s).unwrap().text() == s,
{
    lemma_split_sound(s);
    let segments = split(s).unwrap();
    let record = parse_text(s).unwrap();
    assert(record.salt_and_hash.text() =~= segments.tail_text());
}

/// Whether a record is written the way the parser reads: the identifier and
/// the parameters are tokens of their classes, the salt is an ASCII salt
/// that is a value token, and the Base64 text of the hash is a token of its
/// class that decodes to the hash again.
pub open spec fn written_as_read(record: RawPhcView) -> bool {
    &&& token(record.id, CharClass::Name)
    &&& pairs_well_formed(record.params)
    &&& match record.salt_and_hash {
        SaltAndHashView::Neither => true,
        SaltAndHashView::Salt(salt) => salt matches SaltView::Ascii(text) && token(
            text,
            CharClass::Value,
        ),
        SaltAndHashView::Both { salt, hash } => {
            &&& salt matches SaltView::Ascii(text) && token(text, CharClass::Value)
            &&& token(base64_text(hash), CharClass::Base64)
            &&& decoding(encode_utf8(base64_text(hash))) == Some(hash)
        },
    }
}

/// The way back: the text of a record that is written the way the parser
/// reads parses to that record.
pub proof fn lemma_text_parses(record: RawPhcView)
    requires
        written_as_read(record),
    ensures
        parse_text(record.text()) == Some(record),
{
    let segments = Segments {
        id: record.id,
        params: record.params,
        salt: match record.salt_and_hash.salt() {
            Some(salt) => Some(salt.text()),
            None => None,
        },
        hash: match record.salt_and_hash.hash() {
            Some(hash) => Some(base64_text(hash)),
            None => None,
        },
    };
    assert(segments.tail_text() =~= record.salt_and_hash.text());
    lemma_split_complete(segments);
}

/// A record without parameters has no parameter segment: its string is `$`
/// and the id, followed at once by the salt and hash segments.
pub proof fn lemma_empty_params_omitted(phc: RawPhcView)
    requires
        phc.params.len() == 0,
    ensures
        phc.text() == seq!['$'] + phc.id + phc.salt_and_hash.text(),
{
    assert(phc.text() =~= seq!['$'] + phc.id + phc.salt_and_hash.text());
}

/// Every salt-and-hash value that holds a hash holds a salt as well.
pub proof fn lemma_hash_has_salt(salt_and_hash: SaltAndHashView)
    ensures
        salt_and_hash.hash() is Some ==> salt_and_hash.salt() is Some,
{
}

} // verus!
