//! One connection task: the protocol loop over a single accepted connection.
//!
//! A task owns its connection exclusively.  It repeatedly takes one event
//! read off the stream — a parsed request, a clean close by the peer, a
//! protocol error, or a stream failure — and decides what to do: answer the
//! request through the handler and stay open for the next one (keep-alive),
//! or end, releasing the connection.  Every failure is contained in the task
//! that saw it; the decision never touches any other task.

use vstd::prelude::*;

use crate::handler::{hello_response_view, Handler, HelloHandler};
use crate::message::{ReqView, Request, RespView, Response};

verus! {

/// The two states of a connection task.
#[derive(Clone, Copy, PartialEq, Eq, Structural, Debug)]
pub enum ConnState {
    /// Waiting for the next request on the connection.
    Open,
    /// The task has ended and the connection is released.
    Closed,
}

/// One event read off the connection.
pub enum ConnEvent {
    /// A whole request was parsed off the stream.
    RequestParsed(Request),
    /// The peer closed the stream cleanly.
    PeerClosed,
    /// The bytes on the stream do not form a request.
    ParseError,
    /// The stream itself failed (I/O error, peer reset).
    StreamError,
}

/// The decision a connection task takes for one event.
pub enum ConnAction {
    /// Write this response back and await the next request.
    Respond(Response),
    /// End silently: the peer is done, nothing to log.
    EndSilently,
    /// Log the local failure and end the affected connection alone.
    LogAndEnd,
}

/// Mathematical view of a connection task: open or not, and how many
/// requests it has served.
#[verifier::ext_equal]
pub struct ConnModel {
    pub open: bool,
    pub served: nat,
}

/// Mathematical view of a connection event.
#[verifier::ext_equal]
pub enum ConnEventV {
    RequestParsed(ReqView),
    PeerClosed,
    ParseError,
    StreamError,
}

/// Mathematical view of a connection task's decision.
#[verifier::ext_equal]
pub enum ConnActionV {
    Respond(RespView),
    EndSilently,
    LogAndEnd,
}

/// A connection task serving one accepted connection.
#[derive(Clone, Copy, PartialEq, Eq, Structural, Debug)]
pub struct ConnTask {
    pub state: ConnState,
    pub served: u64,
}

impl View for ConnTask {
    type V = ConnModel;

    open spec fn view(&self) -> ConnModel {
        ConnModel { open: self.state is Open, served: self.served as nat }
    }
}

impl View for ConnEvent {
    type V = ConnEventV;

    open spec fn view(&self) -> ConnEventV {
        match self {
            ConnEvent::RequestParsed(req) => ConnEventV::RequestParsed(req@),
            ConnEvent::PeerClosed => ConnEventV::PeerClosed,
            ConnEvent::ParseError => ConnEventV::ParseError,
            ConnEvent::StreamError => ConnEventV::StreamError,
        }
    }
}

impl View for ConnAction {
    type V = ConnActionV;

    open spec fn view(&self) -> ConnActionV {
        match self {
            ConnAction::Respond(resp) => ConnActionV::Respond(resp@),
            ConnAction::EndSilently => ConnActionV::EndSilently,
            ConnAction::LogAndEnd => ConnActionV::LogAndEnd,
        }
    }
}

/// What one step of the protocol loop does: the task after the event, and
/// the decision taken.  A served request keeps the connection open for the
/// next one; every other event ends the task, silently only when the peer
/// closed cleanly.
pub open spec fn conn_step<H: Handler>(h: H, m: ConnModel, ev: ConnEventV) -> (ConnModel,
    ConnActionV)
    recommends
        m.open,
{
    match ev {
        ConnEventV::RequestParsed(rv) => match h.handle_spec(rv) {
            Ok(resp) => (
                ConnModel { open: true, served: m.served + 1 },
                ConnActionV::Respond(resp),
            ),
            Err(_) => (ConnModel { open: false, served: m.served }, ConnActionV::LogAndEnd),
        },
        ConnEventV::PeerClosed => (
            ConnModel { open: false, served: m.served },
            ConnActionV::EndSilently,
        ),
        ConnEventV::ParseError => (
            ConnModel { open: false, served: m.served },
            ConnActionV::LogAndEnd,
        ),
        ConnEventV::StreamError => (
            ConnModel { open: false, served: m.served },
            ConnActionV::LogAndEnd,
        ),
    }
}

impl ConnTask {
    /// A task for a freshly accepted connection: open, nothing served yet.
    pub fn new() -> (t: ConnTask)
        ensures
            t@.open,
            t@.served == 0,
    {
        ConnTask { state: ConnState::Open, served: 0 }
    }

    /// Takes the decision for one event on this connection, exactly as
    /// [`conn_step`] describes: it invokes the handler on a parsed request
    /// and stays open on success, and ends the task on anything else.
    pub fn step<H: Handler>(&mut self, h: &H, ev: ConnEvent) -> (a: ConnAction)
        requires
            old(self)@.open,
            old(self).served < u64::MAX,
        ensures
            (final(self)@, a@) == conn_step(*h, old(self)@, ev@),
    {
        match ev {
            ConnEvent::RequestParsed(req) => match h.handle(&req) {
                Ok(resp) => {
                    self.served = self.served + 1;
                    ConnAction::Respond(resp)
                },
                Err(_) => {
                    self.state = ConnState::Closed;
                    ConnAction::LogAndEnd
                },
            },
            ConnEvent::PeerClosed => {
                self.state = ConnState::Closed;
                ConnAction::EndSilently
            },
            ConnEvent::ParseError => {
                self.state = ConnState::Closed;
                ConnAction::LogAndEnd
            },
            ConnEvent::StreamError => {
                self.state = ConnState::Closed;
                ConnAction::LogAndEnd
            },
        }
    }
}

/// The task and decisions after a run of parsed requests arriving in order
/// on one connection, each one stepped through [`conn_step`].
pub open spec fn conn_run<H: Handler>(h: H, m: ConnModel, reqs: Seq<ReqView>) -> (ConnModel,
    Seq<ConnActionV>)
    decreases reqs.len(),
{
    if reqs.len() == 0 {
        (m, Seq::empty())
    } else {
        let (m1, a1) = conn_step(h, m, ConnEventV::RequestParsed(reqs[0]));
        let (m2, rest) = conn_run(h, m1, reqs.drop_first());
        (m2, seq![a1] + rest)
    }
}

/// Law (keep-alive): as long as the handler succeeds, any number of requests
/// arriving in order on one open connection are each answered with exactly
/// what the handler says, the connection stays open the whole run, and the
/// served count grows by one per request — the connection is never closed
/// between them.
pub proof fn lemma_keep_alive<H: Handler>(h: H, m: ConnModel, reqs: Seq<ReqView>)
    requires
        m.open,
        forall|i: int| 0 <= i < reqs.len() ==> (#[trigger] h.handle_spec(reqs[i])) is Ok,
    ensures
        conn_run(h, m, reqs).0.open,
        conn_run(h, m, reqs).0.served == m.served + reqs.len(),
        conn_run(h, m, reqs).1.len() == reqs.len(),
        forall|i: int|
            0 <= i < reqs.len() ==> #[trigger] conn_run(h, m, reqs).1[i] == ConnActionV::Respond(
                h.handle_spec(reqs[i])->Ok_0,
            ),
    decreases reqs.len(),
{
    if reqs.len() == 0 {
    } else {
        let (m1, a1) = conn_step(h, m, ConnEventV::RequestParsed(reqs[0]));
        lemma_keep_alive(h, m1, reqs.drop_first());
        let (m2, rest) = conn_run(h, m1, reqs.drop_first());
        assert forall|i: int| 0 <= i < reqs.len() implies #[trigger] conn_run(h, m, reqs).1[i]
            == ConnActionV::Respond(h.handle_spec(reqs[i])->Ok_0) by {
            if i > 0 {
                assert(rest[i - 1] == ConnActionV::Respond(
                    h.handle_spec(reqs.drop_first()[i - 1])->Ok_0,
                ));
                assert(reqs.drop_first()[i - 1] == reqs[i]);
            }
        }
    }
}

/// Law (keep-alive with the shipped handler): any number of sequential
/// requests on one open connection — three, say — are each answered with the
/// fixed `hello world` response, and the connection is open after every one
/// of them, never closed in between.
pub proof fn lemma_hello_keep_alive(m: ConnModel, reqs: Seq<ReqView>)
    requires
        m.open,
    ensures
        conn_run(HelloHandler, m, reqs).0.open,
        conn_run(HelloHandler, m, reqs).0.served == m.served + reqs.len(),
        conn_run(HelloHandler, m, reqs).1.len() == reqs.len(),
        forall|i: int|
            0 <= i < reqs.len() ==> #[trigger] conn_run(HelloHandler, m, reqs).1[i]
                == ConnActionV::Respond(hello_response_view()),
{
    lemma_keep_alive(HelloHandler, m, reqs);
}

} // verus!
