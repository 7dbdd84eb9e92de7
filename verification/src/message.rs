//! Requests and responses as the verified core sees them.
//!
//! A request or response is held as plain values: strings, byte vectors and
//! header pairs.  The unverified edge of the process converts between these
//! and whatever concrete protocol types it uses on the wire.

use vstd::prelude::*;

verus! {

/// Mathematical view of a request: method, target, header pairs and body.
#[verifier::ext_equal]
pub struct ReqView {
    pub method: Seq<char>,
    pub target: Seq<char>,
    pub headers: Seq<(Seq<char>, Seq<u8>)>,
    pub body: Seq<u8>,
}

/// Mathematical view of a response: status code, header pairs and body.
#[verifier::ext_equal]
pub struct RespView {
    pub status: int,
    pub headers: Seq<(Seq<char>, Seq<u8>)>,
    pub body: Seq<u8>,
}

/// One parsed request, transient and owned by the connection that read it.
pub struct Request {
    pub method: String,
    pub target: String,
    pub headers: Vec<(String, Vec<u8>)>,
    pub body: Vec<u8>,
}

/// One response, produced by a handler and written back to the connection.
pub struct Response {
    pub status: u16,
    pub headers: Vec<(String, Vec<u8>)>,
    pub body: Vec<u8>,
}

pub open spec fn headers_view(headers: Seq<(String, Vec<u8>)>) -> Seq<(Seq<char>, Seq<u8>)> {
    headers.map_values(|p: (String, Vec<u8>)| (p.0@, p.1@))
}

impl View for Request {
    type V = ReqView;

    open spec fn view(&self) -> ReqView {
        ReqView {
            method: self.method@,
            target: self.target@,
            headers: headers_view(self.headers@),
            body: self.body@,
        }
    }
}

impl View for Response {
    type V = RespView;

    open spec fn view(&self) -> RespView {
        RespView {
            status: self.status as int,
            headers: headers_view(self.headers@),
            body: self.body@,
        }
    }
}

/// The decimal digits of `n`, most significant first, as ASCII bytes.
pub open spec fn decimal_of(n: nat) -> Seq<u8>
    decreases n,
{
    if n < 10 {
        seq![(48 + n) as u8]
    } else {
        decimal_of(n / 10).push((48 + n % 10) as u8)
    }
}

/// A response carries a `content-length` header whose value is the decimal
/// length of its body.
pub open spec fn has_content_length(r: RespView) -> bool {
    exists|i: int|
        0 <= i < r.headers.len() && r.headers[i] == ("content-length"@, decimal_of(r.body.len()))
}

/// Appends the decimal digits of `n` to `out`, most significant first.
fn push_decimal(n: u64, out: &mut Vec<u8>)
    ensures
        final(out)@ == old(out)@ + decimal_of(n as nat),
    decreases n,
{
    if n >= 10 {
        push_decimal(n / 10, out);
    }
    let digit: u8 = 48 + (n % 10) as u8;
    out.push(digit);
    proof {
        assert(out@ =~= old(out)@ + decimal_of(n as nat));
    }
}

/// The decimal digits of `n` as ASCII bytes, most significant first.
pub fn decimal_bytes(n: u64) -> (v: Vec<u8>)
    ensures
        v@ == decimal_of(n as nat),
{
    let mut v: Vec<u8> = Vec::new();
    push_decimal(n, &mut v);
    proof {
        assert(v@ =~= decimal_of(n as nat));
    }
    v
}

/// The fixed response body, the ASCII bytes of `hello world`.
pub open spec fn hello_body() -> Seq<u8> {
    seq![104u8, 101u8, 108u8, 108u8, 111u8, 32u8, 119u8, 111u8, 114u8, 108u8, 100u8]
}

/// Builds the fixed response body, the bytes of `hello world`.
pub fn hello_body_vec() -> (v: Vec<u8>)
    ensures
        v@ == hello_body(),
{
    let mut v: Vec<u8> = Vec::new();
    v.push(104);
    v.push(101);
    v.push(108);
    v.push(108);
    v.push(111);
    v.push(32);
    v.push(119);
    v.push(111);
    v.push(114);
    v.push(108);
    v.push(100);
    proof {
        assert(v@ =~= hello_body());
    }
    v
}

/// Builds a response with the given status and body and exactly one header,
/// a `content-length` that matches the body.
pub fn response_with_body(status: u16, body: Vec<u8>) -> (r: Response)
    ensures
        r@.status == status,
        r@.body == body@,
        r@.headers == seq![("content-length"@, decimal_of(body@.len()))],
        has_content_length(r@),
{
    let len = body.len();
    let value = decimal_bytes(len as u64);
    let mut headers: Vec<(String, Vec<u8>)> = Vec::new();
    headers.push(("content-length".to_owned(), value));
    let r = Response { status, headers, body };
    proof {
        assert(r@.headers =~= seq![("content-length"@, decimal_of(r@.body.len()))]);
        assert(r@.headers[0] == ("content-length"@, decimal_of(r@.body.len())));
    }
    r
}

} // verus!
