//! The accept loop: the state machine that owns the listening socket.
//!
//! The dispatcher is created only when binding the listen address succeeded;
//! a failed bind is fatal and the serving phase is never entered.  While
//! running it takes one decision per accept attempt: spawn an independent
//! task for an accepted connection, log a transient accept failure and keep
//! going, or stop for good when the listener itself has become invalid.

use vstd::prelude::*;

verus! {

/// How binding the listen address went; fed to [`Dispatcher::start`].
#[derive(Clone, Copy, PartialEq, Eq, Structural, Debug)]
pub enum BindOutcome {
    /// The socket is bound and listening.
    Bound,
    /// The address is already in use.
    AddrInUse,
    /// Binding was not permitted.
    PermissionDenied,
    /// The address is not one the transport can bind.
    InvalidAddress,
}

/// A fatal startup failure: the process must not begin serving.
#[derive(Clone, Copy, PartialEq, Eq, Structural, Debug)]
pub enum BindError {
    AddrInUse,
    PermissionDenied,
    InvalidAddress,
}

/// The two states of the accept loop.
#[derive(Clone, Copy, PartialEq, Eq, Structural, Debug)]
pub enum LoopState {
    /// Accepting connections; entered once bind succeeds.
    Running,
    /// Stopped for good; entered only when the listener became invalid.
    Terminated,
}

/// What one accept attempt produced.
#[derive(Clone, Copy, PartialEq, Eq, Structural, Debug)]
pub enum AcceptEvent {
    /// A peer connected.
    Accepted,
    /// A transient failure (resource exhaustion, peer reset mid-handshake).
    TransientError,
    /// The listener resource itself is no longer usable.
    ListenerInvalid,
}

/// The decision the dispatcher hands back for one accept attempt.
#[derive(Clone, Copy, PartialEq, Eq, Structural, Debug)]
pub enum AcceptAction {
    /// Start an independent connection task; the number identifies it and is
    /// never handed out twice by one dispatcher.
    SpawnTask(u64),
    /// Log the transient failure and try the next accept.
    LogAndContinue,
    /// Stop the accept loop.
    Stop,
}

/// The accept loop's whole state: whether it still runs, and how many
/// connection tasks it has started so far.
#[derive(Clone, Copy, PartialEq, Eq, Structural, Debug)]
pub struct Dispatcher {
    pub state: LoopState,
    pub spawned: u64,
}

/// What [`Dispatcher::start`] returns for each bind outcome.
pub open spec fn start_spec(outcome: BindOutcome) -> Result<Dispatcher, BindError> {
    match outcome {
        BindOutcome::Bound => Ok(
            Dispatcher { state: LoopState::Running, spawned: 0 },
        ),
        BindOutcome::AddrInUse => Err(BindError::AddrInUse),
        BindOutcome::PermissionDenied => Err(BindError::PermissionDenied),
        BindOutcome::InvalidAddress => Err(BindError::InvalidAddress),
    }
}

/// What [`Dispatcher::step`] does to the dispatcher and hands back.
pub open spec fn step_spec(d: Dispatcher, ev: AcceptEvent) -> (Dispatcher, AcceptAction)
    recommends
        d.state is Running,
{
    match ev {
        AcceptEvent::Accepted => (
            Dispatcher { state: LoopState::Running, spawned: (d.spawned + 1) as u64 },
            AcceptAction::SpawnTask(d.spawned),
        ),
        AcceptEvent::TransientError => (d, AcceptAction::LogAndContinue),
        AcceptEvent::ListenerInvalid => (
            Dispatcher { state: LoopState::Terminated, spawned: d.spawned },
            AcceptAction::Stop,
        ),
    }
}

impl Dispatcher {
    /// Enters the serving phase if and only if the bind succeeded; any bind
    /// failure is fatal and leaves no dispatcher behind.
    pub fn start(outcome: BindOutcome) -> (r: Result<Dispatcher, BindError>)
        ensures
            r == start_spec(outcome),
            outcome is Bound <==> r is Ok,
            r matches Ok(d) ==> d.state is Running && d.spawned == 0,
    {
        match outcome {
            BindOutcome::Bound => Ok(Dispatcher { state: LoopState::Running, spawned: 0 }),
            BindOutcome::AddrInUse => Err(BindError::AddrInUse),
            BindOutcome::PermissionDenied => Err(BindError::PermissionDenied),
            BindOutcome::InvalidAddress => Err(BindError::InvalidAddress),
        }
    }

    /// Takes the decision for one accept attempt.
    ///
    /// An accepted connection is handed to a fresh, independently scheduled
    /// task and the loop keeps running; a transient accept failure changes
    /// nothing but the decision to log and retry; only an invalid listener
    /// terminates the loop.
    pub fn step(&mut self, ev: AcceptEvent) -> (a: AcceptAction)
        requires
            old(self).state is Running,
            ev is Accepted ==> old(self).spawned < u64::MAX,
        ensures
            (*final(self), a) == step_spec(*old(self), ev),
            ev is Accepted ==> final(self).state is Running && a == AcceptAction::SpawnTask(
                old(self).spawned,
            ) && final(self).spawned == old(self).spawned + 1,
            ev is TransientError ==> *final(self) == *old(self) && a is LogAndContinue,
            ev is ListenerInvalid ==> final(self).state is Terminated && a is Stop,
    {
        match ev {
            AcceptEvent::Accepted => {
                let id = self.spawned;
                self.spawned = self.spawned + 1;
                AcceptAction::SpawnTask(id)
            },
            AcceptEvent::TransientError => AcceptAction::LogAndContinue,
            AcceptEvent::ListenerInvalid => {
                self.state = LoopState::Terminated;
                AcceptAction::Stop
            },
        }
    }
}

/// Law: one dispatcher never hands the same task identifier out twice.  Any
/// two accepted connections, in whatever states the dispatcher reaches when
/// it accepts them, are given distinct tasks, because every accept raises
/// `spawned` past the identifier it just issued and no step lowers it.
pub proof fn lemma_task_ids_distinct(d1: Dispatcher, ev1: AcceptEvent, ev2: AcceptEvent)
    requires
        ev1 is Accepted,
        ev2 is Accepted,
        d1.spawned < u64::MAX,
    ensures
        step_spec(d1, ev1).1 != step_spec(step_spec(d1, ev1).0, ev2).1,
{
}

/// Law: `spawned` never decreases across a step, so task identifiers issued
/// later are strictly larger than every identifier issued before.
pub proof fn lemma_spawned_monotone(d: Dispatcher, ev: AcceptEvent)
    requires
        ev is Accepted ==> d.spawned < u64::MAX,
    ensures
        step_spec(d, ev).0.spawned >= d.spawned,
        ev is Accepted ==> step_spec(d, ev).1 == AcceptAction::SpawnTask(d.spawned)
            && step_spec(d, ev).0.spawned > d.spawned,
{
}

} // verus!
