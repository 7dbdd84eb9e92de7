//! The whole server as one transition system, and its isolation laws.
//!
//! The model puts the accept loop and every live connection task side by
//! side: the loop's state, the number of tasks started, and one task model
//! per identifier.  Its transitions are exactly the decisions of
//! [`crate::dispatcher`] and [`crate::connection`]; the laws proved here say
//! what the components' contracts cannot say alone — that each event touches
//! exactly one part of the system and leaves every other part as it was.

use vstd::prelude::*;

use crate::connection::{conn_step, ConnEventV, ConnModel};
use crate::handler::Handler;

verus! {

/// The whole server: whether the accept loop still runs, how many connection
/// tasks were started, and the model of each one, by task identifier.
#[verifier::ext_equal]
pub struct ServerModel {
    pub running: bool,
    pub spawned: nat,
    pub conns: Map<nat, ConnModel>,
}

/// Every task identifier in use was issued by the accept loop.
pub open spec fn server_wf(s: ServerModel) -> bool {
    forall|id: nat| s.conns.dom().contains(id) ==> id < s.spawned
}

/// The server right after a successful bind: running, no tasks yet.
pub open spec fn server_init() -> ServerModel {
    ServerModel { running: true, spawned: 0, conns: Map::empty() }
}

/// An accepted connection: a fresh task, open and with nothing served,
/// under the next identifier; the accept loop keeps running.
pub open spec fn on_accept(s: ServerModel) -> ServerModel
    recommends
        s.running,
{
    ServerModel {
        running: s.running,
        spawned: s.spawned + 1,
        conns: s.conns.insert(s.spawned, ConnModel { open: true, served: 0 }),
    }
}

/// A transient accept failure: logged, and nothing in the system changes.
pub open spec fn on_accept_error(s: ServerModel) -> ServerModel
    recommends
        s.running,
{
    s
}

/// The listener resource became invalid: the accept loop terminates; the
/// connection tasks already running are not touched.
pub open spec fn on_listener_invalid(s: ServerModel) -> ServerModel
    recommends
        s.running,
{
    ServerModel { running: false, spawned: s.spawned, conns: s.conns }
}

/// An event on one connection: that task alone takes its step.
pub open spec fn on_conn_event<H: Handler>(
    h: H,
    s: ServerModel,
    id: nat,
    ev: ConnEventV,
) -> ServerModel
    recommends
        s.conns.dom().contains(id),
{
    ServerModel {
        running: s.running,
        spawned: s.spawned,
        conns: s.conns.insert(id, conn_step(h, s.conns[id], ev).0),
    }
}

/// The initial server is well formed.
pub proof fn lemma_init_wf()
    ensures
        server_wf(server_init()),
{
}

/// Law (fresh, independent tasks): while the loop runs, every accepted
/// connection gets a task under an identifier not in use by any live task;
/// the new task starts open with nothing served, every existing task is
/// exactly as it was, and the loop keeps running.
pub proof fn lemma_accept_fresh(s: ServerModel)
    requires
        server_wf(s),
        s.running,
    ensures
        !s.conns.dom().contains(s.spawned),
        on_accept(s).running,
        on_accept(s).conns[s.spawned] == (ConnModel { open: true, served: 0 }),
        forall|j: nat|
            #[trigger] s.conns.dom().contains(j) ==> on_accept(s).conns.dom().contains(j)
                && on_accept(s).conns[j] == s.conns[j],
        server_wf(on_accept(s)),
{
}

/// Law (containment): whatever happens on one connection — a served request,
/// a clean close, malformed bytes, a peer reset — only that task's model
/// changes.  Every other task is exactly as it was, the accept loop keeps
/// its state, and well-formedness is preserved.
pub proof fn lemma_conn_isolation<H: Handler>(h: H, s: ServerModel, id: nat, ev: ConnEventV)
    requires
        server_wf(s),
        s.conns.dom().contains(id),
    ensures
        on_conn_event(h, s, id, ev).running == s.running,
        on_conn_event(h, s, id, ev).spawned == s.spawned,
        forall|j: nat|
            j != id && #[trigger] s.conns.dom().contains(j) ==> on_conn_event(
                h,
                s,
                id,
                ev,
            ).conns.dom().contains(j) && on_conn_event(h, s, id, ev).conns[j] == s.conns[j],
        server_wf(on_conn_event(h, s, id, ev)),
{
}

/// Law (malformed bytes are local): a protocol error on one connection
/// closes that connection and no other — a well-behaved connection open
/// beside it stays open, untouched, and the accept loop keeps running.
pub proof fn lemma_malformed_is_local<H: Handler>(h: H, s: ServerModel, id: nat, j: nat)
    requires
        server_wf(s),
        s.running,
        s.conns.dom().contains(id),
        s.conns.dom().contains(j),
        j != id,
        s.conns[j].open,
    ensures
        !on_conn_event(h, s, id, ConnEventV::ParseError).conns[id].open,
        on_conn_event(h, s, id, ConnEventV::ParseError).conns[j] == s.conns[j],
        on_conn_event(h, s, id, ConnEventV::ParseError).conns[j].open,
        on_conn_event(h, s, id, ConnEventV::ParseError).running,
{
}

/// Law (a reset is contained): a stream failure on one connection ends that
/// task alone and the accept loop is untouched — the very next accepted
/// connection still gets a fresh open task.
pub proof fn lemma_reset_then_accept<H: Handler>(h: H, s: ServerModel, id: nat)
    requires
        server_wf(s),
        s.running,
        s.conns.dom().contains(id),
    ensures
        on_conn_event(h, s, id, ConnEventV::StreamError).running,
        server_wf(on_conn_event(h, s, id, ConnEventV::StreamError)),
        on_accept(on_conn_event(h, s, id, ConnEventV::StreamError)).conns[s.spawned] == (
        ConnModel { open: true, served: 0 }),
        on_accept(on_conn_event(h, s, id, ConnEventV::StreamError)).running,
{
    lemma_conn_isolation(h, s, id, ConnEventV::StreamError);
    lemma_accept_fresh(on_conn_event(h, s, id, ConnEventV::StreamError));
}

/// Law (a transient accept failure is harmless): the loop logs it and keeps
/// running; no task and no counter changes.
pub proof fn lemma_accept_error_harmless(s: ServerModel)
    requires
        server_wf(s),
        s.running,
    ensures
        on_accept_error(s) == s,
        on_accept_error(s).running,
        server_wf(on_accept_error(s)),
{
}

} // verus!
