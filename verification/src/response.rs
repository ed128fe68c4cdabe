//! Responses, their accumulating builder, and their HTTP/1.1 wire
//! serialization.

use vstd::prelude::*;
use vstd::string::StringExecFns;

use crate::status::HttpStatus;

verus! {

/// The ghost shape of a response: its status, its header pairs in
/// registration order, and its body.
pub struct ResponseModel {
    pub status: HttpStatus,
    pub headers: Seq<(Seq<char>, Seq<char>)>,
    pub body: Seq<char>,
}

/// One header as it stands on the wire: name, a colon and a space, value.
pub open spec fn header_line(h: (Seq<char>, Seq<char>)) -> Seq<char> {
    h.0 + ": "@ + h.1
}

/// All header lines joined by CRLF, with no leading or trailing separator.
pub open spec fn header_block(hs: Seq<(Seq<char>, Seq<char>)>) -> Seq<char>
    decreases hs.len(),
{
    if hs.len() == 0 {
        Seq::empty()
    } else if hs.len() == 1 {
        header_line(hs[0])
    } else {
        header_block(hs.drop_last()) + "\r\n"@ + header_line(hs.last())
    }
}

/// The serialized wire form of a response: the status line, CRLF, the
/// header block, a blank line, then the body verbatim.  No Content-Length
/// is computed or injected; a caller that wants one sets it as a header.
pub open spec fn wire(m: ResponseModel) -> Seq<char> {
    "HTTP/1.1 "@ + m.status.spec_text() + "\r\n"@ + header_block(m.headers) + "\r\n\r\n"@
        + m.body
}

/// The response which will be sent back over a connection.
pub struct Response {
    status: HttpStatus,
    headers: Vec<(String, String)>,
    body: String,
}

impl View for Response {
    type V = ResponseModel;

    closed spec fn view(&self) -> ResponseModel {
        ResponseModel { status: self.status, headers: self.headers.deep_view(), body: self.body@ }
    }
}

impl Response {
    /// Serialize the response into its HTTP/1.1 wire form.
    pub fn to_http_string(&self) -> (s: String)
        ensures
            s@ == wire(self@),
    {
        let mut s = String::from_str("HTTP/1.1 ");
        let status_text = self.status.get_string();
        s.append(status_text.as_str());
        s.append("\r\n");
        let mut i: usize = 0;
        while i < self.headers.len()
            invariant
                i <= self.headers.len(),
                s@ == "HTTP/1.1 "@ + self.status.spec_text() + "\r\n"@ + header_block(
                    self.headers.deep_view().take(i as int),
                ),
            decreases self.headers.len() - i,
        {
            if i > 0 {
                s.append("\r\n");
            }
            s.append(self.headers[i].0.as_str());
            s.append(": ");
            s.append(self.headers[i].1.as_str());
            proof {
                let hs = self.headers.deep_view();
                assert(hs.take(i + 1).drop_last() =~= hs.take(i as int));
                assert(hs.take(i + 1).last() == hs[i as int]);
                if i == 0 {
                    assert(header_block(hs.take(1)) == header_line(hs[0]));
                }
            }
            i = i + 1;
        }
        proof {
            assert(self.headers.deep_view().take(self.headers.len() as int) =~= self
                .headers
                .deep_view());
        }
        s.append("\r\n\r\n");
        s.append(self.body.as_str());
        s
    }
}

/// Response builder.
///
/// If no field of the builder is set, building yields a `404 Not Found`
/// response with no header and an empty body: a safe default, not an
/// error.
pub struct ResponseBuilder {
    status: HttpStatus,
    headers: Vec<(String, String)>,
    body: String,
}

impl View for ResponseBuilder {
    type V = ResponseModel;

    closed spec fn view(&self) -> ResponseModel {
        ResponseModel { status: self.status, headers: self.headers.deep_view(), body: self.body@ }
    }
}

impl ResponseBuilder {
    /// Construct a new `ResponseBuilder`.
    pub fn new() -> (r: Self)
        ensures
            r@.status == HttpStatus::Not_Found,
            r@.headers == Seq::<(Seq<char>, Seq<char>)>::empty(),
            r@.body == Seq::<char>::empty(),
    {
        let r = ResponseBuilder {
            status: HttpStatus::Not_Found,
            headers: Vec::new(),
            body: String::new(),
        };
        proof {
            assert(r.headers.deep_view() =~= Seq::<(Seq<char>, Seq<char>)>::empty());
        }
        r
    }

    /// Set the HTTP status code.
    pub fn status(self, status: HttpStatus) -> (r: Self)
        ensures
            r@.status == status,
            r@.headers == self@.headers,
            r@.body == self@.body,
    {
        ResponseBuilder { status, headers: self.headers, body: self.body }
    }

    /// Append a header key-value pair.
    pub fn header(self, key: &str, value: &str) -> (r: Self)
        ensures
            r@.status == self@.status,
            r@.headers == self@.headers.push((key@, value@)),
            r@.body == self@.body,
    {
        let mut headers = self.headers;
        headers.push((key.to_owned(), value.to_owned()));
        proof {
            assert(headers.deep_view() =~= self.headers.deep_view().push((key@, value@)));
        }
        ResponseBuilder { status: self.status, headers, body: self.body }
    }

    /// Set the body of the response.
    pub fn body(self, body: &str) -> (r: Self)
        ensures
            r@.status == self@.status,
            r@.headers == self@.headers,
            r@.body == body@,
    {
        ResponseBuilder { status: self.status, headers: self.headers, body: body.to_owned() }
    }

    /// Consume the `ResponseBuilder` and construct a `Response`.
    pub fn build(self) -> (r: Response)
        ensures
            r@ == self@,
    {
        Response { status: self.status, headers: self.headers, body: self.body }
    }
}

} // verus!
