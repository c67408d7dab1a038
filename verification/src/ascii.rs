//! The ASCII control and separator bytes of the wire format.

use vstd::prelude::*;

verus! {

/// Carriage return.
pub const CR: u8 = 13;

/// Line feed.
pub const LF: u8 = 10;

/// Space.
pub const SP: u8 = 32;

/// Colon, between a header's name and its value.
pub const COLON: u8 = 58;

/// The bytes that a text puts on the wire: its UTF-8 encoding.
pub open spec fn text_bytes(text: Seq<char>) -> Seq<u8> {
    vstd::utf8::encode_utf8(text)
}

/// The end of a line, CR LF.
pub open spec fn crlf() -> Seq<u8> {
    seq![CR, LF]
}

/// An ASCII text is sent one byte per character, each byte the character's
/// code.
pub proof fn lemma_ascii_text_bytes(text: Seq<char>)
    requires
        vstd::utf8::is_ascii_chars(text),
    ensures
        text_bytes(text).len() == text.len(),
        forall|i: int| 0 <= i < text.len() ==> #[trigger] text_bytes(text)[i] == text[i] as u8,
{
    vstd::utf8::is_ascii_chars_encode_utf8(text);
}

} // verus!
