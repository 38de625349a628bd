//! Unpadded standard-alphabet Base64, as computed by the `base64` crate.
//!
//! The encoder and the decoder are not verified here. Each gets a name for
//! what it returns, and the rest of the library is proved against those
//! names. [`decode`] is the decoder as the library uses it: it keeps input
//! that is too long for the decoder away from it.

use vstd::prelude::*;

verus! {

/// The error type of the `base64` decoder. Its contents are not inspected.
#[verifier::external_type_specification]
#[verifier::external_body]
pub struct ExDecodeError(base64::DecodeError);

/// The text that `base64::encode_config_buf` with `STANDARD_NO_PAD` writes
/// for the given bytes.
pub uninterp spec fn base64_text(bytes: Seq<u8>) -> Seq<char>;

/// What `base64::decode_config` with `STANDARD_NO_PAD` makes of the given
/// input: the decoded bytes, or `None` where it reports an error.
pub uninterp spec fn base64_bytes(text: Seq<u8>) -> Option<Seq<u8>>;

/// The length of the longest input that the decoder takes. It rounds the
/// length of its input up to the next multiple of eight, and that must fit
/// in `usize`.
pub const MAX_DECODABLE_LEN: usize = usize::MAX - 7;

/// Whether an input of `len` bytes is short enough for the decoder.
pub open spec fn decodable_len(len: nat) -> bool {
    len <= MAX_DECODABLE_LEN
}

/// What the library decodes `text` to: what the decoder makes of it, and
/// nothing where `text` is too long for the decoder.
pub open spec fn decoding(text: Seq<u8>) -> Option<Seq<u8>> {
    if decodable_len(text.len()) {
        base64_bytes(text)
    } else {
        None
    }
}

/// Calls `base64::encode_config_buf(bytes, STANDARD_NO_PAD, ..)` on an empty
/// string and returns that string.
///
/// Trusted, not proved: the result is the text that the encoder writes for
/// `bytes`, which [`base64_text`] names. This entry point of the encoder
/// works through its input in pieces; unlike `encode_config` it computes no
/// total length that could overflow, so it takes input of any length.
#[verifier::external_body]
pub(crate) fn encode_no_pad(bytes: &[u8]) -> (text: String)
    ensures
        text@ == base64_text(bytes@),
{
    let mut text = String::new();
    base64::encode_config_buf(bytes, base64::STANDARD_NO_PAD, &mut text);
    text
}

/// Calls `base64::decode_config(text, STANDARD_NO_PAD)`.
///
/// Trusted, not proved: the result is the decoder's outcome for `text`,
/// which [`base64_bytes`] names, with `None` standing for every error. The
/// decoder panics only where rounding the input length up overflows
/// `usize`; the precondition leaves those inputs out.
#[verifier::external_body]
fn decode_no_pad(text: &[u8]) -> (outcome: Result<Vec<u8>, base64::DecodeError>)
    requires
        decodable_len(text@.len()),
    ensures
        match outcome {
            Ok(bytes) => base64_bytes(text@) == Some(bytes@),
            Err(_) => base64_bytes(text@) is None,
        },
{
    base64::decode_config(text, base64::STANDARD_NO_PAD)
}

/// Decodes unpadded Base64. Gives nothing for text that the decoder
/// refuses, and for text that is too long to hand to it.
pub fn decode(text: &[u8]) -> (decoded: Option<Vec<u8>>)
    ensures
        match decoded {
            Some(bytes) => decoding(text@) == Some(bytes@),
            None => decoding(text@) is None,
        },
{
    if text.len() > MAX_DECODABLE_LEN {
        return None;
    }
    match decode_no_pad(text) {
        Ok(bytes) => Some(bytes),
        Err(_) => None,
    }
}

} // verus!
