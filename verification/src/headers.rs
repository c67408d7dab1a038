//! Header names, media types and the header block.

use vstd::prelude::*;
use crate::ascii::{text_bytes, crlf, COLON, CR, LF, SP};

verus! {

/// The header names that a response can carry.
#[derive(Clone, Copy, PartialEq, Eq, Structural, Debug)]
pub enum Header {
    ContentLength,
    ContentType,
}

impl Header {
    /// The header's name as text.
    pub open spec fn name(self) -> Seq<char> {
        match self {
            Header::ContentLength => "Content-Length"@,
            Header::ContentType => "Content-Type"@,
        }
    }

    /// The header's name as bytes on the wire.
    pub open spec fn wire(self) -> Seq<u8> {
        text_bytes(self.name())
    }

    /// The header's name as bytes on the wire.
    pub fn raw(&self) -> (bytes: &'static [u8])
        ensures
            bytes@ == self.wire(),
    {
        match self {
            Header::ContentLength => "Content-Length".as_bytes(),
            Header::ContentType => "Content-Type".as_bytes(),
        }
    }
}

/// The media types that a body can be declared as.
#[derive(Clone, Copy, PartialEq, Eq, Structural, Debug)]
pub enum MediaType {
    PlainText,
}

impl MediaType {
    /// The MIME text of the media type.
    pub open spec fn text(self) -> Seq<char> {
        match self {
            MediaType::PlainText => "text/plain"@,
        }
    }

    /// The MIME text of the media type.
    pub fn as_str(&self) -> (text: &'static str)
        ensures
            text@ == self.text(),
    {
        match self {
            MediaType::PlainText => "text/plain",
        }
    }
}

/// One header line on the wire: name, colon, space, value, CR LF.
pub open spec fn line(name: Header, value: Seq<char>) -> Seq<u8> {
    name.wire() + seq![COLON, SP] + text_bytes(value) + crlf()
}

/// The lines of `entries`, one after the other in the order of the entries.
pub open spec fn lines(entries: Seq<(Header, Seq<char>)>) -> Seq<u8>
    decreases entries.len(),
{
    if entries.len() == 0 {
        Seq::<u8>::empty()
    } else {
        lines(entries.drop_last()) + line(entries.last().0, entries.last().1)
    }
}

/// The header block on the wire: every line, then one blank line.
pub open spec fn block(entries: Seq<(Header, Seq<char>)>) -> Seq<u8> {
    lines(entries) + crlf()
}

/// The headers of one message, in the order in which they were added. A name
/// may occur more than once.
pub struct Headers {
    entries: Vec<(Header, String)>,
}

impl View for Headers {
    type V = Seq<(Header, Seq<char>)>;

    closed spec fn view(&self) -> Seq<(Header, Seq<char>)> {
        Seq::new(self.entries@.len(), |i: int| (self.entries@[i].0, self.entries@[i].1@))
    }
}

impl Default for Headers {
    /// No header at all.
    fn default() -> (headers: Headers)
        ensures
            headers@ == Seq::<(Header, Seq<char>)>::empty(),
    {
        Headers::new()
    }
}

impl Headers {
    /// No header at all.
    pub fn new() -> (headers: Headers)
        ensures
            headers@ == Seq::<(Header, Seq<char>)>::empty(),
    {
        let headers = Headers { entries: Vec::new() };
        assert(headers@ =~= Seq::<(Header, Seq<char>)>::empty());
        headers
    }

    /// Appends one entry. Nothing is replaced: a name added twice is sent
    /// twice.
    pub fn add(&mut self, header: Header, value: String)
        ensures
            final(self)@ == old(self)@.push((header, value@)),
    {
        self.entries.push((header, value));
        assert(self@ =~= old(self)@.push((header, value@)));
    }

    /// The header block on the wire.
    pub fn raw(&self) -> (bytes: Vec<u8>)
        ensures
            bytes@ == block(self@),
    {
        let mut bytes: Vec<u8> = Vec::new();
        let n: usize = self.entries.len();
        let mut i: usize = 0;
        assert(self@.take(0) =~= Seq::<(Header, Seq<char>)>::empty());
        while i < n
            invariant
                n == self.entries@.len(),
                n == self@.len(),
                i <= n,
                bytes@ == lines(self@.take(i as int)),
            decreases n - i,
        {
            let ghost before = bytes@;
            let entry = &self.entries[i];
            bytes.extend_from_slice(entry.0.raw());
            bytes.push(COLON);
            bytes.push(SP);
            bytes.extend_from_slice(entry.1.as_str().as_bytes());
            bytes.push(CR);
            bytes.push(LF);
            proof {
                let upto = self@.take(i + 1);
                assert(upto.drop_last() =~= self@.take(i as int));
                assert(upto.last() == self@[i as int]);
                assert(bytes@ =~= before + line(self@[i as int].0, self@[i as int].1));
            }
            i += 1;
        }
        assert(self@.take(n as int) =~= self@);
        bytes.push(CR);
        bytes.push(LF);
        assert(bytes@ =~= block(self@));
        bytes
    }
}

} // verus!
