//! Salt values: ASCII text or binary data.

use crate::codec::{base64_text, decode, decoding, encode_no_pad};
use vstd::prelude::*;
use vstd::slice::slice_to_vec;
use vstd::std_specs::convert::FromSpecImpl;
use vstd::utf8::encode_utf8;

verus! {

/// The mathematical value of a [`Salt`].
pub enum SaltView {
    /// Text, taken literally.
    Ascii(Seq<char>),
    /// Opaque bytes.
    Binary(Seq<u8>),
}

impl SaltView {
    /// The canonical text of the salt: ASCII text verbatim, binary data as
    /// unpadded Base64.
    pub open spec fn text(self) -> Seq<char> {
        match self {
            SaltView::Ascii(text) => text,
            SaltView::Binary(bytes) => base64_text(bytes),
        }
    }

    /// The salt with the bytes `decoded` from its text in the place of the
    /// text. A binary salt has no text to replace, and without decoded bytes
    /// nothing is replaced: the salt then stays as it is.
    pub open spec fn reinterpret(self, decoded: Option<Seq<u8>>) -> SaltView {
        match (self, decoded) {
            (SaltView::Ascii(_), Some(bytes)) => SaltView::Binary(bytes),
            _ => self,
        }
    }

    /// The salt read as binary: an ASCII salt whose text, taken in UTF-8,
    /// decodes as unpadded Base64 becomes the decoded bytes; every other
    /// salt stays as it is.
    pub open spec fn as_binary(self) -> SaltView {
        match self {
            SaltView::Ascii(text) => self.reinterpret(decoding(encode_utf8(text))),
            SaltView::Binary(_) => self,
        }
    }
}

/// Salt value used in hashing.
#[derive(Debug, PartialEq)]
pub enum Salt {
    /// A string with characters in the range [a-zA-Z0-9/+.-].
    Ascii(String),
    /// A binary value, written as Base64.
    Binary(Vec<u8>),
}

impl View for Salt {
    type V = SaltView;

    open spec fn view(&self) -> SaltView {
        match self {
            Salt::Ascii(text) => SaltView::Ascii(text@),
            Salt::Binary(bytes) => SaltView::Binary(bytes@),
        }
    }
}

impl Clone for Salt {
    /// A salt of the same kind with the same contents.
    fn clone(&self) -> (copy: Salt)
        ensures
            copy@ == self@,
    {
        match self {
            Salt::Ascii(ascii) => Salt::Ascii(ascii.clone()),
            Salt::Binary(binary) => {
                let copy = binary.clone();
                assert(copy@ =~= binary@);
                Salt::Binary(copy)
            },
        }
    }
}

impl Salt {
    /// Puts the bytes `decoded` from the text of an ASCII salt in the place
    /// of the text. A binary salt, and any salt where nothing was decoded,
    /// is returned without change.
    pub fn reinterpret(self, decoded: Option<Vec<u8>>) -> (salt: Salt)
        ensures
            salt == match (self, decoded) {
                (Salt::Ascii(_), Some(bytes)) => Salt::Binary(bytes),
                _ => self,
            },
            salt@ == self@.reinterpret(
                match decoded {
                    Some(bytes) => Some(bytes@),
                    None => None,
                },
            ),
    {
        match (self, decoded) {
            (Salt::Ascii(_), Some(bytes)) => Salt::Binary(bytes),
            (salt, _) => salt,
        }
    }

    /// Returns a version of this salt interpreted as binary.
    ///
    /// An ASCII salt that is valid unpadded Base64 becomes the bytes it
    /// encodes. Any other salt is returned without change.
    pub fn as_binary(self) -> (salt: Salt)
        ensures
            salt@ == self@.as_binary(),
    {
        let decoded = match &self {
            Salt::Ascii(ascii) => decode(ascii.as_str().as_bytes()),
            Salt::Binary(_) => None,
        };
        self.reinterpret(decoded)
    }

    /// The canonical text of the salt.
    pub fn to_string(&self) -> (text: String)
        ensures
            text@ == self@.text(),
    {
        match self {
            Salt::Ascii(ascii) => ascii.clone(),
            Salt::Binary(binary) => encode_no_pad(binary.as_slice()),
        }
    }
}

impl From<String> for Salt {
    /// An ASCII salt that holds the string.
    fn from(ascii: String) -> (salt: Salt)
        ensures
            salt == Salt::Ascii(ascii),
    {
        Salt::Ascii(ascii)
    }
}

impl FromSpecImpl<String> for Salt {
    open spec fn obeys_from_spec() -> bool {
        true
    }

    open spec fn from_spec(ascii: String) -> Salt {
        Salt::Ascii(ascii)
    }
}

impl<'a> From<&'a str> for Salt {
    /// An ASCII salt that holds a copy of the string.
    fn from(ascii: &'a str) -> (salt: Salt)
        ensures
            salt@ == SaltView::Ascii(ascii@),
    {
        Salt::Ascii(ascii.to_owned())
    }
}

impl<'a> FromSpecImpl<&'a str> for Salt {
    /// The conversion makes a copy, which is known by its contents only:
    /// its contract is the one on `from`, and no value is named here.
    open spec fn obeys_from_spec() -> bool {
        false
    }

    open spec fn from_spec(ascii: &'a str) -> Salt {
        arbitrary()
    }
}

impl From<Vec<u8>> for Salt {
    /// A binary salt that holds the bytes.
    fn from(binary: Vec<u8>) -> (salt: Salt)
        ensures
            salt == Salt::Binary(binary),
    {
        Salt::Binary(binary)
    }
}

impl FromSpecImpl<Vec<u8>> for Salt {
    open spec fn obeys_from_spec() -> bool {
        true
    }

    open spec fn from_spec(binary: Vec<u8>) -> Salt {
        Salt::Binary(binary)
    }
}

impl<'a> From<&'a [u8]> for Salt {
    /// A binary salt that holds a copy of the bytes.
    fn from(binary: &'a [u8]) -> (salt: Salt)
        ensures
            salt@ == SaltView::Binary(binary@),
    {
        Salt::Binary(slice_to_vec(binary))
    }
}

impl<'a> FromSpecImpl<&'a [u8]> for Salt {
    /// The conversion makes a copy, which is known by its contents only:
    /// its contract is the one on `from`, and no value is named here.
    open spec fn obeys_from_spec() -> bool {
        false
    }

    open spec fn from_spec(binary: &'a [u8]) -> Salt {
        arbitrary()
    }
}

impl<'a, const N: usize> From<&'a [u8; N]> for Salt {
    /// A binary salt that holds a copy of the bytes.
    fn from(binary: &'a [u8; N]) -> (salt: Salt)
        ensures
            salt@ == SaltView::Binary(binary@),
    {
        Salt::Binary(slice_to_vec(binary.as_slice()))
    }
}

impl<'a, const N: usize> FromSpecImpl<&'a [u8; N]> for Salt {
    /// The conversion makes a copy, which is known by its contents only:
    /// its contract is the one on `from`, and no value is named here.
    open spec fn obeys_from_spec() -> bool {
        false
    }

    open spec fn from_spec(binary: &'a [u8; N]) -> Salt {
        arbitrary()
    }
}

impl<const N: usize> From<[u8; N]> for Salt {
    /// A binary salt that holds a copy of the bytes.
    fn from(binary: [u8; N]) -> (salt: Salt)
        ensures
            salt@ == SaltView::Binary(binary@),
    {
        Salt::Binary(slice_to_vec(binary.as_slice()))
    }
}

impl<const N: usize> FromSpecImpl<[u8; N]> for Salt {
    /// The conversion makes a copy, which is known by its contents only:
    /// its contract is the one on `from`, and no value is named here.
    open spec fn obeys_from_spec() -> bool {
        false
    }

    open spec fn from_spec(binary: [u8; N]) -> Salt {
        arbitrary()
    }
}

} // verus!
