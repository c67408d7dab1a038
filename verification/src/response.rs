//! The response: status line, header block and optional body.

use vstd::prelude::*;
use vstd::string::*;
use crate::ascii::{text_bytes, crlf, CR, LF, SP};
use crate::common::{Body, Version};
use crate::decimal::{
    decimal_chars, decimal_string, decimal_value, lemma_decimal_chars_are_digits,
    lemma_decimal_value_of_chars,
};
use crate::headers::{block, line, lines, Header, Headers, MediaType};

verus! {

/// The status codes that a response can carry.
#[derive(Clone, Copy, PartialEq, Eq, Structural, Debug)]
pub enum StatusCode {
    OK,
    BadRequest,
    NotFound,
    InternalServerError,
    NotImplemented,
}

impl StatusCode {
    /// The number of the status.
    pub open spec fn code(self) -> nat {
        match self {
            StatusCode::OK => 200,
            StatusCode::BadRequest => 400,
            StatusCode::NotFound => 404,
            StatusCode::InternalServerError => 500,
            StatusCode::NotImplemented => 501,
        }
    }

    /// The status as text: its number in decimal.
    pub open spec fn text(self) -> Seq<char> {
        match self {
            StatusCode::OK => "200"@,
            StatusCode::BadRequest => "400"@,
            StatusCode::NotFound => "404"@,
            StatusCode::InternalServerError => "500"@,
            StatusCode::NotImplemented => "501"@,
        }
    }

    /// The status as bytes on the wire.
    pub open spec fn wire(self) -> Seq<u8> {
        text_bytes(self.text())
    }

    /// The status as bytes on the wire.
    pub fn raw(&self) -> (bytes: &'static [u8])
        ensures
            bytes@ == self.wire(),
    {
        match self {
            StatusCode::OK => "200".as_bytes(),
            StatusCode::BadRequest => "400".as_bytes(),
            StatusCode::NotFound => "404".as_bytes(),
            StatusCode::InternalServerError => "500".as_bytes(),
            StatusCode::NotImplemented => "501".as_bytes(),
        }
    }
}

/// Every status goes on the wire as its number in decimal: three bytes, each
/// an ASCII digit.
pub proof fn lemma_status_code_wire(status: StatusCode)
    ensures
        status.text() == decimal_chars(status.code()),
        status.wire().len() == 3,
        forall|i: int| 0 <= i < 3 ==> #[trigger] status.wire()[i] == status.text()[i] as u8,
        forall|i: int| 0 <= i < 3 ==> 48 <= #[trigger] status.wire()[i] <= 57,
{
    reveal_strlit("200");
    reveal_strlit("400");
    reveal_strlit("404");
    reveal_strlit("500");
    reveal_strlit("501");
    reveal_with_fuel(decimal_chars, 3);
    assert(status.text() =~= decimal_chars(status.code()));
    lemma_decimal_chars_are_digits(status.code());
    crate::ascii::lemma_ascii_text_bytes(status.text());
}

/// The first line of a response: protocol version and status.
pub struct StatusLine {
    http_version: Version,
    status_code: StatusCode,
}

/// The status line on the wire: version, space, status, space, CR LF. The
/// reason phrase is empty, the space before it is still sent.
pub open spec fn status_line_wire(version: Version, status: StatusCode) -> Seq<u8> {
    version.wire() + seq![SP] + status.wire() + seq![SP, CR, LF]
}

/// Whatever the status, the status line is fifteen bytes long: the version,
/// a space, three digits, and then a space, CR and LF, the space standing
/// before the empty reason phrase.
pub proof fn lemma_status_line_shape(version: Version, status: StatusCode)
    ensures
        status_line_wire(version, status).len() == 15,
        status_line_wire(version, status).subrange(0, 8) == version.wire(),
        status_line_wire(version, status)[8] == SP,
        status_line_wire(version, status).subrange(9, 12) == status.wire(),
        status_line_wire(version, status)[12] == SP,
        status_line_wire(version, status)[13] == CR,
        status_line_wire(version, status)[14] == LF,
{
    reveal_strlit("HTTP/1.0");
    crate::ascii::lemma_ascii_text_bytes(version.text());
    lemma_status_code_wire(status);
    let all = status_line_wire(version, status);
    assert(all.subrange(0, 8) =~= version.wire());
    assert(all.subrange(9, 12) =~= status.wire());
}

impl StatusLine {
    /// The version that the line announces.
    pub closed spec fn version(&self) -> Version {
        self.http_version
    }

    /// The status that the line carries.
    pub closed spec fn status(&self) -> StatusCode {
        self.status_code
    }

    /// The status line of an HTTP/1.0 response with the given status.
    pub fn new(status_code: StatusCode) -> (status_line: StatusLine)
        ensures
            status_line.version() == Version::Http10,
            status_line.status() == status_code,
    {
        StatusLine { http_version: Version::Http10, status_code }
    }

    /// The status line on the wire.
    pub fn raw(&self) -> (bytes: Vec<u8>)
        ensures
            bytes@ == status_line_wire(self.version(), self.status()),
    {
        let mut bytes: Vec<u8> = Vec::new();
        bytes.extend_from_slice(self.http_version.raw());
        bytes.push(SP);
        bytes.extend_from_slice(self.status_code.raw());
        bytes.push(SP);
        bytes.push(CR);
        bytes.push(LF);
        assert(bytes@ =~= status_line_wire(self.version(), self.status()));
        bytes
    }
}

/// What a response holds.
pub ghost struct ResponseView {
    /// The protocol version that the status line announces.
    pub version: Version,
    /// The status given at construction.
    pub status: StatusCode,
    /// The header entries, in the order in which they are sent.
    pub headers: Seq<(Header, Seq<char>)>,
    /// The bytes of the body, if one was attached.
    pub body: Option<Seq<u8>>,
}

/// The two entries that describe a body of `len` bytes: its length in decimal
/// and its media type.
pub open spec fn body_headers(len: nat) -> Seq<(Header, Seq<char>)> {
    seq![
        (Header::ContentLength, decimal_chars(len)),
        (Header::ContentType, MediaType::PlainText.text()),
    ]
}

/// The bytes that follow the header block.
pub open spec fn body_wire(body: Option<Seq<u8>>) -> Seq<u8> {
    match body {
        Some(bytes) => bytes,
        None => Seq::<u8>::empty(),
    }
}

/// The response on the wire: status line, header block, body.
pub open spec fn wire(response: ResponseView) -> Seq<u8> {
    status_line_wire(response.version, response.status) + block(response.headers) + body_wire(
        response.body,
    )
}

impl ResponseView {
    /// An HTTP/1.0 response with no body and no header.
    pub open spec fn fresh(status: StatusCode) -> ResponseView {
        ResponseView { version: Version::Http10, status, headers: Seq::empty(), body: None }
    }

    /// This response after a body of the given bytes was attached: two more
    /// entries at the end of the headers, and the body in place of any earlier
    /// one.
    pub open spec fn with_body(self, bytes: Seq<u8>) -> ResponseView {
        ResponseView {
            version: self.version,
            status: self.status,
            headers: self.headers + body_headers(bytes.len()),
            body: Some(bytes),
        }
    }

    /// The headers describe the body and nothing else: none without a body,
    /// and with one exactly its length and its media type.
    pub open spec fn framed(self) -> bool {
        match self.body {
            Some(bytes) => self.headers == body_headers(bytes.len()),
            None => self.headers == Seq::<(Header, Seq<char>)>::empty(),
        }
    }
}

/// A response that was just made holds no header and no body, and goes on the
/// wire as its status line and the blank line that ends the header block.
pub proof fn lemma_fresh_wire(status: StatusCode)
    ensures
        ResponseView::fresh(status).framed(),
        ResponseView::fresh(status).headers.len() == 0,
        ResponseView::fresh(status).body is None,
        wire(ResponseView::fresh(status)) == status_line_wire(Version::Http10, status) + crlf(),
{
    let fresh = ResponseView::fresh(status);
    assert(lines(fresh.headers) =~= Seq::<u8>::empty());
    assert(wire(fresh) =~= status_line_wire(Version::Http10, status) + crlf());
}

/// A response with one body attached goes on the wire as its status line,
/// the `Content-Length` line with the body's length in decimal, the
/// `Content-Type` line, a blank line, and the body's bytes with nothing
/// between or after.
pub proof fn lemma_body_wire(status: StatusCode, body: Seq<u8>)
    ensures
        ResponseView::fresh(status).with_body(body).framed(),
        ResponseView::fresh(status).with_body(body).status == status,
        ResponseView::fresh(status).with_body(body).body == Some(body),
        wire(ResponseView::fresh(status).with_body(body)) == status_line_wire(
            Version::Http10,
            status,
        ) + line(Header::ContentLength, decimal_chars(body.len())) + line(
            Header::ContentType,
            MediaType::PlainText.text(),
        ) + crlf() + body,
{
    let response = ResponseView::fresh(status).with_body(body);
    let entries = body_headers(body.len());
    assert(response.headers =~= entries);
    assert(entries.drop_last() =~= seq![(Header::ContentLength, decimal_chars(body.len()))]);
    assert(entries.drop_last().drop_last() =~= Seq::<(Header, Seq<char>)>::empty());
    reveal_with_fuel(lines, 3);
    assert(lines(entries) =~= line(Header::ContentLength, decimal_chars(body.len())) + line(
        Header::ContentType,
        MediaType::PlainText.text(),
    ));
    assert(wire(response) =~= status_line_wire(Version::Http10, status) + line(
        Header::ContentLength,
        decimal_chars(body.len()),
    ) + line(Header::ContentType, MediaType::PlainText.text()) + crlf() + body);
}

/// Attaching the first body to a response whose headers describe its body
/// leaves one whose headers describe its body: exactly one `Content-Length`
/// entry, with the length of the body in decimal, and one `Content-Type`
/// entry. The declared length, read as a number, is the number of bytes that
/// follow the header block.
pub proof fn lemma_first_body_frames(response: ResponseView, body: Seq<u8>)
    requires
        response.framed(),
        response.body is None,
    ensures
        response.with_body(body).framed(),
        response.with_body(body).headers.len() == 2,
        response.with_body(body).headers[0] == (Header::ContentLength, decimal_chars(body.len())),
        response.with_body(body).headers[1] == (Header::ContentType, MediaType::PlainText.text()),
        decimal_value(response.with_body(body).headers[0].1) == body.len(),
{
    assert(response.with_body(body).headers =~= body_headers(body.len()));
    lemma_decimal_value_of_chars(body.len());
}

/// What goes on the wire depends on what the response holds and on nothing
/// else: responses that hold the same serialize to the same bytes, so
/// serializing one response twice gives the same bytes twice.
pub proof fn lemma_wire_repeatable(first: Response, second: Response)
    requires
        first@ == second@,
    ensures
        wire(first@) == wire(second@),
{
}

/// The serialized response ends with the body's bytes: nothing follows them.
pub proof fn lemma_wire_ends_with_body(response: ResponseView)
    ensures
        wire(response).len() >= body_wire(response.body).len(),
        wire(response).subrange(
            wire(response).len() - body_wire(response.body).len(),
            wire(response).len() as int,
        ) == body_wire(response.body),
{
    let all = wire(response);
    let tail = body_wire(response.body);
    assert(all.subrange(all.len() - tail.len(), all.len() as int) =~= tail);
}

/// An HTTP/1.0 response.
pub struct Response {
    status_line: StatusLine,
    headers: Headers,
    body: Option<Body>,
}

impl View for Response {
    type V = ResponseView;

    closed spec fn view(&self) -> ResponseView {
        ResponseView {
            version: self.status_line.version(),
            status: self.status_line.status(),
            headers: self.headers@,
            body: match self.body {
                Some(body) => Some(body@),
                None => None,
            },
        }
    }
}

impl Response {
    /// A response with the given status, no header and no body.
    pub fn new(status_code: StatusCode) -> (response: Response)
        ensures
            response@ == ResponseView::fresh(status_code),
            response@.framed(),
    {
        Response { status_line: StatusLine::new(status_code), headers: Headers::default(), body: None }
    }

    /// Attaches a body and appends the two headers that describe it:
    /// `Content-Length` with the body's length in decimal, then
    /// `Content-Type` with the plain-text media type. An earlier body is
    /// replaced; the headers of an earlier body stay.
    pub fn set_body(&mut self, body: Body)
        ensures
            final(self)@ == old(self)@.with_body(body@),
            old(self)@.framed() && old(self)@.body is None ==> final(self)@.framed(),
    {
        proof {
            if self@.framed() && self@.body is None {
                lemma_first_body_frames(self@, body@);
            }
        }
        self.headers.add(Header::ContentLength, decimal_string(body.len()));
        self.headers.add(Header::ContentType, String::from_str(MediaType::PlainText.as_str()));
        self.body = Some(body);
        assert(self@.headers =~= old(self)@.headers + body_headers(body@.len()));
    }

    /// The bytes of the body, none where no body is attached.
    fn body_raw(&self) -> (bytes: &[u8])
        ensures
            bytes@ == body_wire(self@.body),
    {
        match &self.body {
            Some(body) => body.raw(),
            None => &[],
        }
    }

    /// The response on the wire: the status line, the header block with its
    /// blank line, then the body's bytes.
    pub fn raw(&self) -> (bytes: Vec<u8>)
        ensures
            bytes@ == wire(self@),
    {
        let mut bytes: Vec<u8> = self.status_line.raw();
        let mut headers: Vec<u8> = self.headers.raw();
        bytes.append(&mut headers);
        bytes.extend_from_slice(self.body_raw());
        assert(bytes@ =~= wire(self@));
        bytes
    }

    /// The status given at construction.
    pub fn status(&self) -> (status_code: StatusCode)
        ensures
            status_code == self@.status,
    {
        self.status_line.status_code
    }

    /// A copy of the body, if one is attached. The copy shares nothing with
    /// the response.
    pub fn body(&self) -> (body: Option<Body>)
        ensures
            match body {
                Some(copy) => self@.body == Some(copy@),
                None => self@.body is None,
            },
    {
        match &self.body {
            Some(body) => Some(body.clone()),
            None => None,
        }
    }
}

} // verus!
