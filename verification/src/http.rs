//! Plain values that stand for HTTP responses.

use vstd::prelude::*;

verus! {

/// One response header: its name and the bytes of its value.
#[derive(Debug, PartialEq)]
pub struct HeaderPairRecord {
    pub name: String,
    pub value: Vec<u8>,
}

/// A response: status code, headers in order, and body.
#[derive(Debug, PartialEq)]
pub struct Response {
    pub status: u16,
    pub headers: Vec<HeaderPairRecord>,
    pub body: Vec<u8>,
}

/// The mathematical value of a header.
pub struct HeaderView {
    pub name: Seq<char>,
    pub value: Seq<u8>,
}

/// The mathematical value of a response.
pub struct ResponseView {
    pub status: int,
    pub headers: Seq<HeaderView>,
    pub body: Seq<u8>,
}

impl View for HeaderPairRecord {
    type V = HeaderView;

    open spec fn view(&self) -> HeaderView {
        HeaderView { name: self.name@, value: self.value@ }
    }
}

impl View for Response {
    type V = ResponseView;

    open spec fn view(&self) -> ResponseView {
        ResponseView {
            status: self.status as int,
            headers: Seq::new(self.headers@.len(), |i: int| self.headers@[i]@),
            body: self.body@,
        }
    }
}

impl Clone for HeaderPairRecord {
    fn clone(&self) -> (copy: HeaderPairRecord)
        ensures
            copy@ == self@,
    {
        HeaderPairRecord {
            name: self.name.clone(),
            value: vstd::slice::slice_to_vec(self.value.as_slice()),
        }
    }
}

/// A copy of a list of headers.
pub fn clone_headers(headers: &Vec<HeaderPairRecord>) -> (copy: Vec<HeaderPairRecord>)
    ensures
        copy@.len() == headers@.len(),
        forall|i: int| 0 <= i < headers@.len() ==> (#[trigger] copy@[i])@ == headers@[i]@,
{
    let mut copy: Vec<HeaderPairRecord> = Vec::new();
    let mut i: usize = 0;
    while i < headers.len()
        invariant
            i <= headers.len(),
            copy@.len() == i,
            forall|j: int| 0 <= j < i ==> (#[trigger] copy@[j])@ == headers@[j]@,
        decreases headers.len() - i,
    {
        copy.push(headers[i].clone());
        i += 1;
    }
    copy
}

impl Clone for Response {
    fn clone(&self) -> (copy: Response)
        ensures
            copy@ == self@,
    {
        let copy = Response {
            status: self.status,
            headers: clone_headers(&self.headers),
            body: vstd::slice::slice_to_vec(self.body.as_slice()),
        };
        assert(copy@.headers =~= self@.headers);
        copy
    }
}

pub const OK: u16 = 200;

pub const SEE_OTHER: u16 = 303;

pub const BAD_REQUEST: u16 = 400;

pub const UNAUTHORIZED: u16 = 401;

pub const INTERNAL_SERVER_ERROR: u16 = 500;

/// A response with the given status, no headers and an empty body.
pub open spec fn bare(status: int) -> ResponseView {
    ResponseView { status, headers: Seq::empty(), body: Seq::empty() }
}

/// A response with the given status, one header with a textual value, and
/// an empty body.
pub open spec fn with_header(status: int, name: Seq<char>, value: Seq<char>) -> ResponseView {
    ResponseView {
        status,
        headers: seq![HeaderView { name, value: vstd::utf8::encode_utf8(value) }],
        body: Seq::empty(),
    }
}

impl Response {
    /// A response that carries only a status code.
    pub fn from_status(status: u16) -> (response: Response)
        ensures
            response@ == bare(status as int),
    {
        let response = Response { status, headers: Vec::new(), body: Vec::new() };
        assert(response@.headers =~= Seq::empty());
        response
    }

    /// A response that carries a status code and one header.
    pub fn with_header(status: u16, name: &str, value: &str) -> (response: Response)
        ensures
            response@ == with_header(status as int, name@, value@),
    {
        let mut headers: Vec<HeaderPairRecord> = Vec::new();
        let pair = HeaderPairRecord {
            name: name.to_owned(),
            value: vstd::slice::slice_to_vec(value.as_bytes()),
        };
        headers.push(pair);
        let response = Response { status, headers, body: Vec::new() };
        assert(response@.headers =~= with_header(status as int, name@, value@).headers);
        response
    }

    /// A redirect: status 303 and a `Location` header.
    pub fn see_other(location: &str) -> (response: Response)
        ensures
            response@ == with_header(SEE_OTHER as int, "Location"@, location@),
    {
        Response::with_header(SEE_OTHER, "Location", location)
    }
}

} // verus!
