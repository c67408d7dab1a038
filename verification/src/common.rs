//! The protocol version and the message body.

use vstd::prelude::*;
use crate::ascii::text_bytes;

verus! {

/// The protocol versions that a status line can announce.
#[derive(Clone, Copy, PartialEq, Eq, Structural, Debug)]
pub enum Version {
    Http10,
}

impl Version {
    /// The text that names the version.
    pub open spec fn text(self) -> Seq<char> {
        match self {
            Version::Http10 => "HTTP/1.0"@,
        }
    }

    /// The bytes that name the version on the wire.
    pub open spec fn wire(self) -> Seq<u8> {
        text_bytes(self.text())
    }

    /// The bytes that name the version on the wire.
    pub fn raw(&self) -> (bytes: &'static [u8])
        ensures
            bytes@ == self.wire(),
    {
        match self {
            Version::Http10 => "HTTP/1.0".as_bytes(),
        }
    }
}

/// A message body: the bytes that follow the header block.
#[derive(Debug)]
pub struct Body {
    bytes: Vec<u8>,
}

impl View for Body {
    type V = Seq<u8>;

    closed spec fn view(&self) -> Seq<u8> {
        self.bytes@
    }
}

impl Clone for Body {
    /// The copy holds the same bytes and shares nothing with this one.
    fn clone(&self) -> (copy: Self)
        ensures
            copy@ == self@,
    {
        let mut bytes: Vec<u8> = Vec::new();
        bytes.extend_from_slice(self.bytes.as_slice());
        assert(bytes@ =~= self.bytes@);
        Body { bytes }
    }
}

impl Body {
    /// A body that holds the UTF-8 bytes of `text`.
    pub fn new(text: String) -> (body: Body)
        ensures
            body@ == text_bytes(text@),
    {
        let mut bytes: Vec<u8> = Vec::new();
        bytes.extend_from_slice(text.as_str().as_bytes());
        assert(bytes@ =~= text_bytes(text@));
        Body { bytes }
    }

    /// A body that holds `bytes` as they are.
    pub fn from_bytes(bytes: Vec<u8>) -> (body: Body)
        ensures
            body@ == bytes@,
    {
        Body { bytes }
    }

    /// The body's bytes.
    pub fn raw(&self) -> (bytes: &[u8])
        ensures
            bytes@ == self@,
    {
        self.bytes.as_slice()
    }

    /// The number of bytes in the body.
    pub fn len(&self) -> (n: usize)
        ensures
            n == self@.len(),
    {
        self.bytes.len()
    }

    /// Whether the body holds no byte at all.
    pub fn is_empty(&self) -> (empty: bool)
        ensures
            empty == (self@.len() == 0),
    {
        self.bytes.len() == 0
    }
}

} // verus!
