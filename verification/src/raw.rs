//! Raw, unassociated PHC string data.
//!
//! These structures carry data between the serialized string and a hash
//! function's own parameter format.

use crate::codec::{base64_text, encode_no_pad};
use crate::grammar::parse_text;
use crate::parser::parse_phc;
use crate::salt::{Salt, SaltView};
use std::str::FromStr;
use vstd::prelude::*;
use vstd::string::StringExecFns;

verus! {

/// A parameter as it stands in a PHC string: its name and its value.
pub type Pair = (Seq<char>, Seq<char>);

/// The text of one parameter: `name=value`.
pub open spec fn pair_text(pair: Pair) -> Seq<char> {
    pair.0 + seq!['='] + pair.1
}

/// The text of the parameters that follow the first one: `,name=value` for
/// each, in order.
pub open spec fn more_pairs_text(pairs: Seq<Pair>) -> Seq<char>
    decreases pairs.len(),
{
    if pairs.len() == 0 {
        Seq::empty()
    } else {
        seq![','] + pair_text(pairs[0]) + more_pairs_text(pairs.drop_first())
    }
}

/// The text of the parameter segment: nothing for an empty list, else `$`
/// and the parameters joined by `,`.
pub open spec fn params_text(pairs: Seq<Pair>) -> Seq<char> {
    if pairs.len() == 0 {
        Seq::empty()
    } else {
        seq!['$'] + pair_text(pairs[0]) + more_pairs_text(pairs.drop_first())
    }
}

/// The name and value of each stored parameter, as sequences of characters.
pub open spec fn pairs_view(params: Seq<(String, String)>) -> Seq<Pair> {
    Seq::new(params.len(), |i: int| (params[i].0@, params[i].1@))
}

/// Appending a stored parameter appends its name and value to the view.
pub proof fn lemma_pairs_view_push(params: Seq<(String, String)>, last: (String, String))
    ensures
        pairs_view(params.push(last)) == pairs_view(params).push((last.0@, last.1@)),
{
    assert(pairs_view(params.push(last)) =~= pairs_view(params).push((last.0@, last.1@)));
}

/// The name and value of each borrowed parameter, as sequences of
/// characters.
pub open spec fn str_pairs_view(params: Seq<(&str, &str)>) -> Seq<Pair> {
    Seq::new(params.len(), |i: int| (params[i].0@, params[i].1@))
}

/// The mathematical value of a [`SaltAndHash`].
pub enum SaltAndHashView {
    /// Neither salt nor hash.
    Neither,
    /// A salt alone.
    Salt(SaltView),
    /// A salt and a hash.
    Both { salt: SaltView, hash: Seq<u8> },
}

impl SaltAndHashView {
    /// The value that the salt and hash segments of a PHC string stand for:
    /// the salt taken as ASCII, and with it the hash where a hash segment
    /// was `decoded`. There is no value where a hash segment did not decode.
    pub open spec fn from_decoded(tail: Option<(Seq<char>, Option<Option<Seq<u8>>>)>) -> Option<
        SaltAndHashView,
    > {
        match tail {
            None => Some(SaltAndHashView::Neither),
            Some((salt, None)) => Some(SaltAndHashView::Salt(SaltView::Ascii(salt))),
            Some((salt, Some(Some(hash)))) => Some(
                SaltAndHashView::Both { salt: SaltView::Ascii(salt), hash },
            ),
            Some((salt, Some(None))) => None,
        }
    }

    /// The salt, where there is one.
    pub open spec fn salt(self) -> Option<SaltView> {
        match self {
            SaltAndHashView::Neither => None,
            SaltAndHashView::Salt(salt) => Some(salt),
            SaltAndHashView::Both { salt, .. } => Some(salt),
        }
    }

    /// The hash, where there is one.
    pub open spec fn hash(self) -> Option<Seq<u8>> {
        match self {
            SaltAndHashView::Both { hash, .. } => Some(hash),
            _ => None,
        }
    }

    /// The text of the salt and hash segments: nothing, `$salt`, or
    /// `$salt$hash` with the hash in unpadded Base64.
    pub open spec fn text(self) -> Seq<char> {
        match self {
            SaltAndHashView::Neither => Seq::empty(),
            SaltAndHashView::Salt(salt) => seq!['$'] + salt.text(),
            SaltAndHashView::Both { salt, hash } => seq!['$'] + salt.text() + seq!['$']
                + base64_text(hash),
        }
    }
}

/// Salt and hash information stored in the PHC string.
#[derive(Debug, PartialEq)]
pub enum SaltAndHash {
    /// A string that has neither salt nor hash values.
    Neither,
    /// A string that has a salt value.
    Salt(Salt),
    /// A string that has both a salt and a hash value.
    Both { salt: Salt, hash: Vec<u8> },
}

impl View for SaltAndHash {
    type V = SaltAndHashView;

    open spec fn view(&self) -> SaltAndHashView {
        match self {
            SaltAndHash::Neither => SaltAndHashView::Neither,
            SaltAndHash::Salt(salt) => SaltAndHashView::Salt(salt@),
            SaltAndHash::Both { salt, hash } => SaltAndHashView::Both { salt: salt@, hash: hash@ },
        }
    }
}

impl SaltAndHash {
    /// Create a SaltAndHash from a nested pair of salt and hash.
    ///
    /// A hash can never stand in a PHC string without a salt, so the input
    /// pair can only hold a hash where it holds a salt. The salt of the
    /// result is what `salt.into()` gave; the hash is moved in unchanged.
    pub fn from_option<T: Into<Salt>>(salt_and_hash: Option<(T, Option<Vec<u8>>)>) -> (made:
        SaltAndHash)
        ensures
            match salt_and_hash {
                None => made == SaltAndHash::Neither,
                Some((from, None)) => made matches SaltAndHash::Salt(salt) && call_ensures(
                    <T as Into<Salt>>::into,
                    (from,),
                    salt,
                ),
                Some((from, Some(bytes))) => made matches SaltAndHash::Both { salt, hash }
                    && hash == bytes && call_ensures(<T as Into<Salt>>::into, (from,), salt),
            },
            made@.hash() is Some ==> made@.salt() is Some,
    {
        match salt_and_hash {
            None => SaltAndHash::Neither,
            Some((salt, None)) => SaltAndHash::Salt(salt.into()),
            Some((salt, Some(hash))) => SaltAndHash::Both { salt: salt.into(), hash },
        }
    }

    /// Makes the value that the salt and hash segments of a PHC string stand
    /// for, from the text of the salt segment and from what its hash
    /// segment decoded to. `None` as `tail` stands for a string without a
    /// salt, `None` beside the salt for one without a hash, and `None` as
    /// the outcome of decoding for a hash segment that did not decode: for
    /// that last one nothing is made.
    pub fn from_decoded(tail: Option<(String, Option<Option<Vec<u8>>>)>) -> (made: Option<
        SaltAndHash,
    >)
        ensures
            made == match tail {
                None => Some(SaltAndHash::Neither),
                Some((salt, None)) => Some(SaltAndHash::Salt(Salt::Ascii(salt))),
                Some((salt, Some(Some(hash)))) => Some(
                    SaltAndHash::Both { salt: Salt::Ascii(salt), hash },
                ),
                Some((salt, Some(None))) => None,
            },
    {
        match tail {
            None => Some(SaltAndHash::from_option::<Salt>(None)),
            Some((salt, None)) => Some(SaltAndHash::from_option(Some((salt, None)))),
            Some((salt, Some(Some(hash)))) => Some(
                SaltAndHash::from_option(Some((salt, Some(hash)))),
            ),
            Some((_, Some(None))) => None,
        }
    }

    /// The salt that the value holds, where it holds one.
    pub open spec fn spec_salt(&self) -> Option<&Salt> {
        match self {
            SaltAndHash::Neither => None,
            SaltAndHash::Salt(salt) => Some(salt),
            SaltAndHash::Both { salt, .. } => Some(salt),
        }
    }

    /// The salt, where there is one.
    pub fn salt(&self) -> (found: Option<&Salt>)
        ensures
            found == self.spec_salt(),
            match found {
                Some(salt) => self@.salt() == Some(salt@),
                None => self@.salt() is None,
            },
    {
        match self {
            SaltAndHash::Neither => None,
            SaltAndHash::Salt(salt) => Some(salt),
            SaltAndHash::Both { salt, .. } => Some(salt),
        }
    }

    /// The hash, where there is one. There is none without a salt.
    pub fn hash(&self) -> (found: Option<&[u8]>)
        ensures
            match found {
                Some(hash) => self@.hash() == Some(hash@),
                None => self@.hash() is None,
            },
            found is Some ==> self.spec_salt() is Some,
    {
        match self {
            SaltAndHash::Both { hash, .. } => Some(hash.as_slice()),
            _ => None,
        }
    }

    /// The text of the salt and hash segments, each with its leading `$`.
    pub fn to_string(&self) -> (text: String)
        ensures
            text@ == self@.text(),
    {
        let mut text = String::new();
        proof {
            reveal_strlit("$");
        }
        match self {
            SaltAndHash::Neither => {},
            SaltAndHash::Salt(salt) => {
                text.append("$");
                text.append(salt.to_string().as_str());
            },
            SaltAndHash::Both { salt, hash } => {
                text.append("$");
                text.append(salt.to_string().as_str());
                text.append("$");
                text.append(encode_no_pad(hash.as_slice()).as_str());
            },
        }
        assert(text@ =~= self@.text());
        text
    }
}

/// The mathematical value of a [`RawPHC`].
pub struct RawPhcView {
    /// The identifier of the hash function.
    pub id: Seq<char>,
    /// The parameters, in the order of the string.
    pub params: Seq<Pair>,
    /// The salt and the hash.
    pub salt_and_hash: SaltAndHashView,
}

impl RawPhcView {
    /// The PHC string of the record: `$id`, then the parameter segment, then
    /// the salt and hash segments.
    pub open spec fn text(self) -> Seq<char> {
        seq!['$'] + self.id + params_text(self.params) + self.salt_and_hash.text()
    }
}

/// A parsed PHC string that has not been associated with a hash function.
#[derive(Debug)]
pub struct RawPHC {
    /// The id of the hash function that this PHC string describes.
    id: String,
    /// A list of key-value pairs that describe the parameters that the hash
    /// function should use.
    params: Vec<(String, String)>,
    /// The salt and hash encoded in this PHC.
    salt_and_hash: SaltAndHash,
}

impl View for RawPHC {
    type V = RawPhcView;

    closed spec fn view(&self) -> RawPhcView {
        RawPhcView {
            id: self.id@,
            params: pairs_view(self.params@),
            salt_and_hash: self.salt_and_hash@,
        }
    }
}

impl RawPHC {
    /// Create a PHC struct from parts, usually parsed from a string.
    pub fn from_parts(id: String, params: Vec<(String, String)>, salt_and_hash: SaltAndHash) -> (phc:
        RawPHC)
        ensures
            phc@ == (RawPhcView {
                id: id@,
                params: pairs_view(params@),
                salt_and_hash: salt_and_hash@,
            }),
    {
        RawPHC { id, params, salt_and_hash }
    }

    /// The id of the hash function.
    pub fn id(&self) -> (id: &str)
        ensures
            id@ == self@.id,
    {
        self.id.as_str()
    }

    /// The parameters as pairs of name and value, in the order of the
    /// string.
    pub fn params(&self) -> (params: Vec<(&str, &str)>)
        ensures
            str_pairs_view(params@) == self@.params,
    {
        let mut params: Vec<(&str, &str)> = Vec::new();
        let mut i: usize = 0;
        while i < self.params.len()
            invariant
                i <= self.params.len(),
                params.len() == i,
                forall|j: int|
                    0 <= j < i ==> (#[trigger] params@[j]).0@ == self.params@[j].0@ && params@[j].1@
                        == self.params@[j].1@,
            decreases self.params.len() - i,
        {
            let pair = &self.params[i];
            params.push((pair.0.as_str(), pair.1.as_str()));
            i += 1;
        }
        assert(str_pairs_view(params@) =~= pairs_view(self.params@));
        params
    }

    /// The salt, where the string has one.
    pub fn salt(&self) -> (found: Option<&Salt>)
        ensures
            match found {
                Some(salt) => self@.salt_and_hash.salt() == Some(salt@),
                None => self@.salt_and_hash.salt() is None,
            },
    {
        self.salt_and_hash.salt()
    }

    /// The hash, where the string has one.
    pub fn hash(&self) -> (found: Option<&[u8]>)
        ensures
            match found {
                Some(hash) => self@.salt_and_hash.hash() == Some(hash@),
                None => self@.salt_and_hash.hash() is None,
            },
            found is Some ==> self@.salt_and_hash.salt() is Some,
    {
        self.salt_and_hash.hash()
    }

    /// The PHC string of the record.
    ///
    /// Always begins with `$` and the id. The parameters follow as
    /// `$name=value` pairs joined by `,`, unless there are none. The salt and
    /// the hash follow, each after a `$`.
    pub fn to_string(&self) -> (text: String)
        ensures
            text@ == self@.text(),
    {
        proof {
            reveal_strlit("$");
            reveal_strlit("=");
            reveal_strlit(",");
        }
        let mut text = String::new();
        text.append("$");
        text.append(self.id.as_str());
        let ghost pairs = pairs_view(self.params@);
        if self.params.len() > 0 {
            text.append("$");
            text.append(self.params[0].0.as_str());
            text.append("=");
            text.append(self.params[0].1.as_str());
            assert(text@ =~= seq!['$'] + self.id@ + seq!['$'] + pair_text(pairs[0]));
            assert(pairs.drop_first() =~= pairs.skip(1));
            let mut i: usize = 1;
            while i < self.params.len()
                invariant
                    1 <= i <= self.params.len(),
                    pairs == pairs_view(self.params@),
                    text@ + more_pairs_text(pairs.skip(i as int)) == seq!['$'] + self.id@
                        + params_text(pairs),
                decreases self.params.len() - i,
            {
                let ghost before = text@;
                text.append(",");
                text.append(self.params[i].0.as_str());
                text.append("=");
                text.append(self.params[i].1.as_str());
                proof {
                    reveal_strlit("=");
                    reveal_strlit(",");
                    let rest = pairs.skip(i as int);
                    assert(rest[0] == (self.params@[i as int].0@, self.params@[i as int].1@));
                    assert(rest.drop_first() =~= pairs.skip(i + 1));
                    assert(text@ =~= before + seq![','] + pair_text(rest[0]));
                    assert(text@ + more_pairs_text(pairs.skip(i + 1)) =~= before
                        + more_pairs_text(rest));
                }
                i += 1;
            }
            assert(more_pairs_text(pairs.skip(i as int)) =~= Seq::<char>::empty());
            assert(text@ =~= seq!['$'] + self.id@ + params_text(pairs));
        } else {
            assert(text@ =~= seq!['$'] + self.id@ + params_text(pairs));
        }
        text.append(self.salt_and_hash.to_string().as_str());
        text
    }
}

impl FromStr for RawPHC {
    type Err = ();

    /// Parses a PHC string, as [`parse_phc`] does.
    fn from_str(raw: &str) -> (parsed: Result<RawPHC, ()>)
        ensures
            match parsed {
                Ok(phc) => parse_text(raw@) == Some(phc@),
                Err(_) => parse_text(raw@) is None,
            },
    {
        parse_phc(raw)
    }
}

} // verus!
