//! The pluggable request handler and the shipped fixed-response handler.
//!
//! A handler is a stateless mapping from a request to a response or a
//! failure.  The connection task invokes it through the [`Handler`] trait
//! only, so any handler satisfying the contract can be substituted without
//! touching the transport code.

use vstd::prelude::*;

use crate::message::{decimal_of, has_content_length, ReqView, Request, RespView, Response};
use crate::message::{hello_body, hello_body_vec, response_with_body};

verus! {

/// A handler invocation failed; the connection serving the request is closed.
#[derive(Clone, Copy, PartialEq, Eq, Structural, Debug)]
pub enum HandlerError {
    Failed,
}

/// A stateless mapping from a request to a response or a failure.
///
/// `handle_spec` is the handler's own mathematical description; `handle`
/// must return exactly what it says.  Handlers carry no mutable state and
/// may be shared read-only by every connection task.
pub trait Handler {
    /// What this handler returns for a given request.
    spec fn handle_spec(&self, req: ReqView) -> Result<RespView, HandlerError>;

    /// Produces the response (or failure) that `handle_spec` describes.
    fn handle(&self, req: &Request) -> (r: Result<Response, HandlerError>)
        ensures
            r matches Ok(resp) ==> self.handle_spec(req@) matches Ok(rv) && resp@ == rv,
            r matches Err(e) ==> self.handle_spec(req@) matches Err(e2) && e == e2,
    ;
}

/// The response the shipped handler gives to every request: status 200,
/// body `hello world`, and a matching `content-length` header.
pub open spec fn hello_response_view() -> RespView {
    RespView {
        status: 200,
        headers: seq![("content-length"@, decimal_of(hello_body().len()))],
        body: hello_body(),
    }
}

/// Builds the fixed `hello world` response.
pub fn hello_response() -> (r: Response)
    ensures
        r@ == hello_response_view(),
{
    let r = response_with_body(200, hello_body_vec());
    proof {
        assert(r@ =~= hello_response_view());
    }
    r
}

/// The shipped handler: ignores the whole request and always succeeds with
/// the fixed `hello world` response.
#[derive(Clone, Copy, PartialEq, Eq, Structural, Debug)]
pub struct HelloHandler;

impl Handler for HelloHandler {
    open spec fn handle_spec(&self, req: ReqView) -> Result<RespView, HandlerError> {
        Ok(hello_response_view())
    }

    fn handle(&self, req: &Request) -> (r: Result<Response, HandlerError>) {
        Ok(hello_response())
    }
}

/// Law: the shipped handler succeeds on every request, with a response that
/// does not depend on the request at all — status 200, body `hello world`,
/// and a `content-length` header matching the body, whatever the method,
/// target, headers or body of the request.
pub proof fn lemma_hello_uniform(h: HelloHandler, r1: ReqView, r2: ReqView)
    ensures
        h.handle_spec(r1) is Ok,
        h.handle_spec(r1) == h.handle_spec(r2),
        h.handle_spec(r1)->Ok_0.status == 200,
        h.handle_spec(r1)->Ok_0.body == hello_body(),
        has_content_length(h.handle_spec(r1)->Ok_0),
{
    let resp = hello_response_view();
    assert(resp.headers[0] == ("content-length"@, decimal_of(resp.body.len())));
}

} // verus!
