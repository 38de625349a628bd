//! ASCII text, byte by byte.

use vstd::prelude::*;
use vstd::utf8::{encode_utf8, is_ascii_chars, is_ascii_chars_encode_utf8};

verus! {

/// In ASCII text the byte at a position is the character at that position.
pub proof fn lemma_ascii_bytes(s: Seq<char>)
    requires
        is_ascii_chars(s),
    ensures
        encode_utf8(s).len() == s.len(),
        forall|i: int| 0 <= i < s.len() ==> (#[trigger] encode_utf8(s)[i]) as char == s[i],
{
    is_ascii_chars_encode_utf8(s);
    assert forall|i: int| 0 <= i < s.len() implies (#[trigger] encode_utf8(s)[i]) as char
        == s[i] by {
        assert(s[i] as u8 == encode_utf8(s)[i]);
    }
}

} // verus!
