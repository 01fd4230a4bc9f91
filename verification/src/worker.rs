//! The session worker's dispatch/cancel state machine.
//!
//! One dedicated consumer drains the action queue and drives the single
//! session engine. Register and Sign dispatches must not block the drain
//! path: the engine completes them on its own, so the worker goes straight
//! back to polling. Cancel is the one blocking step: the worker waits until
//! the engine has fully stopped before it looks at the queue again, so two
//! operations never touch session state at once. When the queue disconnects
//! or the liveness flag is cleared, the worker cancels the engine one final
//! time and exits.

use vstd::prelude::*;

use crate::callback::AdaptedCallback;
use crate::queue::{Action, ActionV};
use crate::requests::{RegisterRequest, RegisterRequestV, SignRequest, SignRequestV};

verus! {

/// Where the worker stands between two queue reads.
#[derive(Clone, Copy, Debug, PartialEq, Eq, Structural)]
pub enum WorkerState {
    /// No engine operation has been dispatched since the last cancel.
    Idle,
    /// An operation was handed to the engine; the engine may still be
    /// working on it while the worker polls for the next action.
    Busy,
    /// The worker has cancelled the engine one final time and left its
    /// loop; it processes no further events.
    Exited,
}

/// What one bounded queue read gave the worker.
pub enum WorkerEvent {
    /// The next action, in first-in first-out order.
    Received(Action),
    /// No action arrived within the poll interval.
    TimedOut,
    /// Every producer is gone; no action will ever arrive again.
    Disconnected,
    /// The liveness flag was cleared from outside.
    Stopped,
}

/// Mathematical model of a `WorkerEvent`.
#[verifier::ext_equal]
pub enum WorkerEventV {
    Received(ActionV),
    TimedOut,
    Disconnected,
    Stopped,
}

impl View for WorkerEvent {
    type V = WorkerEventV;

    open spec fn view(&self) -> WorkerEventV {
        match self {
            WorkerEvent::Received(a) => WorkerEventV::Received(a@),
            WorkerEvent::TimedOut => WorkerEventV::TimedOut,
            WorkerEvent::Disconnected => WorkerEventV::Disconnected,
            WorkerEvent::Stopped => WorkerEventV::Stopped,
        }
    }
}

/// A call the worker makes on the session engine.
pub enum EngineOp {
    /// Dispatch a registration; must not block the worker.
    Register { timeout: u64, request: RegisterRequest, callback: AdaptedCallback },
    /// Dispatch one signing attempt; must not block the worker.
    Sign { timeout: u64, request: SignRequest, callback: AdaptedCallback },
    /// Stop the in-flight operation and block until it has fully stopped.
    Cancel,
}

/// Mathematical model of an `EngineOp`.
#[verifier::ext_equal]
pub enum EngineOpV {
    Register { timeout: u64, request: RegisterRequestV, callback: AdaptedCallback },
    Sign { timeout: u64, request: SignRequestV, callback: AdaptedCallback },
    Cancel,
}

impl View for EngineOp {
    type V = EngineOpV;

    open spec fn view(&self) -> EngineOpV {
        match self {
            EngineOp::Register { timeout, request, callback } => EngineOpV::Register {
                timeout: *timeout,
                request: request@,
                callback: *callback,
            },
            EngineOp::Sign { timeout, request, callback } => EngineOpV::Sign {
                timeout: *timeout,
                request: request@,
                callback: *callback,
            },
            EngineOp::Cancel => EngineOpV::Cancel,
        }
    }
}

/// What the worker's loop must do after one event: which engine call to
/// make, and whether to keep polling afterwards.
pub struct Directive {
    /// The engine call this event demands, if any.
    pub op: Option<EngineOp>,
    /// Whether the worker keeps polling; `false` means the loop ends.
    pub keep_polling: bool,
}

/// The engine call a dequeued action turns into.
pub open spec fn dispatch_op(a: ActionV) -> EngineOpV {
    match a {
        ActionV::Register { timeout, request, callback } => EngineOpV::Register {
            timeout,
            request,
            callback,
        },
        ActionV::Sign { timeout, request, callback } => EngineOpV::Sign {
            timeout,
            request,
            callback,
        },
        ActionV::Cancel => EngineOpV::Cancel,
    }
}

/// The engine call one event demands: dequeued actions are dispatched, a
/// poll timeout demands nothing, and loop exit demands one final cancel.
pub open spec fn step_op(e: WorkerEventV) -> Option<EngineOpV> {
    match e {
        WorkerEventV::Received(a) => Some(dispatch_op(a)),
        WorkerEventV::TimedOut => None,
        WorkerEventV::Disconnected => Some(EngineOpV::Cancel),
        WorkerEventV::Stopped => Some(EngineOpV::Cancel),
    }
}

/// The worker state after one event. Dispatching marks the worker busy in
/// name only — the engine enforces mutual exclusion, the worker keeps
/// polling. A cancel, blocking as it is, leaves the engine idle.
pub open spec fn step_state(s: WorkerState, e: WorkerEventV) -> WorkerState {
    match e {
        WorkerEventV::Received(a) => match a {
            ActionV::Register { .. } => WorkerState::Busy,
            ActionV::Sign { .. } => WorkerState::Busy,
            ActionV::Cancel => WorkerState::Idle,
        },
        WorkerEventV::TimedOut => s,
        WorkerEventV::Disconnected => WorkerState::Exited,
        WorkerEventV::Stopped => WorkerState::Exited,
    }
}

/// Whether the worker keeps polling after one event.
pub open spec fn step_keeps_polling(e: WorkerEventV) -> bool {
    !(e is Disconnected || e is Stopped)
}

/// The single consumer of the action queue.
pub struct SessionWorker {
    state: WorkerState,
}

impl SessionWorker {
    /// Where the worker stands.
    pub closed spec fn state_spec(self) -> WorkerState {
        self.state
    }

    /// A worker that has dispatched nothing yet.
    pub fn new() -> (r: SessionWorker)
        ensures
            r.state_spec() == WorkerState::Idle,
    {
        SessionWorker { state: WorkerState::Idle }
    }

    /// Processes one queue read, exactly as the step functions say: the
    /// returned directive carries the engine call the event demands and
    /// whether the loop goes on.
    pub fn handle_event(&mut self, event: WorkerEvent) -> (d: Directive)
        requires
            old(self).state_spec() != WorkerState::Exited,
        ensures
            final(self).state_spec() == step_state(old(self).state_spec(), event@),
            d.keep_polling == step_keeps_polling(event@),
            d.op is Some <==> step_op(event@) is Some,
            d.op matches Some(op) ==> step_op(event@) == Some(op@),
    {
        match event {
            WorkerEvent::Received(Action::Register { timeout, request, callback }) => {
                self.state = WorkerState::Busy;
                Directive {
                    op: Some(EngineOp::Register { timeout, request, callback }),
                    keep_polling: true,
                }
            },
            WorkerEvent::Received(Action::Sign { timeout, request, callback }) => {
                self.state = WorkerState::Busy;
                Directive {
                    op: Some(EngineOp::Sign { timeout, request, callback }),
                    keep_polling: true,
                }
            },
            WorkerEvent::Received(Action::Cancel) => {
                self.state = WorkerState::Idle;
                Directive { op: Some(EngineOp::Cancel), keep_polling: true }
            },
            WorkerEvent::TimedOut => {
                Directive { op: None, keep_polling: true }
            },
            WorkerEvent::Disconnected => {
                self.state = WorkerState::Exited;
                Directive { op: Some(EngineOp::Cancel), keep_polling: false }
            },
            WorkerEvent::Stopped => {
                self.state = WorkerState::Exited;
                Directive { op: Some(EngineOp::Cancel), keep_polling: false }
            },
        }
    }
}

/// The engine calls one event contributes to the worker's call trace.
pub open spec fn step_trace(e: WorkerEventV) -> Seq<EngineOpV> {
    match step_op(e) {
        Some(op) => seq![op],
        None => Seq::empty(),
    }
}

/// The engine calls a whole run of events makes, in order.
pub open spec fn run_ops(events: Seq<WorkerEventV>) -> Seq<EngineOpV>
    decreases events.len(),
{
    if events.len() == 0 {
        Seq::empty()
    } else {
        run_ops(events.drop_last()) + step_trace(events.last())
    }
}

/// Law: cancellation drains before the worker proceeds. When the worker
/// dequeues a registration, then a cancel, then another registration, the
/// engine sees exactly the first dispatch, then the (blocking) cancel that
/// fully stops it, and only after that the second dispatch.
pub proof fn lemma_cancel_fully_precedes(first: ActionV, second: ActionV)
    requires
        first is Register,
        second is Register,
    ensures
        run_ops(
            seq![
                WorkerEventV::Received(first),
                WorkerEventV::Received(ActionV::Cancel),
                WorkerEventV::Received(second),
            ],
        ) == seq![dispatch_op(first), EngineOpV::Cancel, dispatch_op(second)],
{
    reveal_with_fuel(run_ops, 4);
    let events = seq![
        WorkerEventV::Received(first),
        WorkerEventV::Received(ActionV::Cancel),
        WorkerEventV::Received(second),
    ];
    assert(events.drop_last() =~= seq![
        WorkerEventV::Received(first),
        WorkerEventV::Received(ActionV::Cancel),
    ]);
    assert(events.drop_last().drop_last() =~= seq![WorkerEventV::Received(first)]);
    assert(events.drop_last().drop_last().drop_last() =~= Seq::<WorkerEventV>::empty());
    assert(run_ops(events.drop_last().drop_last()) =~= seq![dispatch_op(first)]);
    assert(run_ops(events.drop_last()) =~= seq![dispatch_op(first), EngineOpV::Cancel]);
    assert(run_ops(events) =~= seq![dispatch_op(first), EngineOpV::Cancel, dispatch_op(second)]);
}

/// Law: teardown always cancels. Whatever the worker was doing, a queue
/// disconnect or a cleared liveness flag makes it call the engine's
/// blocking cancel and leave its loop in the terminal state.
pub proof fn lemma_teardown_cancels(s: WorkerState, e: WorkerEventV)
    requires
        e is Disconnected || e is Stopped,
    ensures
        step_op(e) == Some(EngineOpV::Cancel),
        step_state(s, e) == WorkerState::Exited,
        !step_keeps_polling(e),
{
}

/// Law: the terminal state is only ever entered through that final cancel;
/// the worker never exits while the engine might still be working.
pub proof fn lemma_exit_only_after_cancel(s: WorkerState, e: WorkerEventV)
    requires
        s != WorkerState::Exited,
        step_state(s, e) == WorkerState::Exited,
    ensures
        step_op(e) == Some(EngineOpV::Cancel),
        !step_keeps_polling(e),
{
}

/// Law: a run that ends in teardown ends, on the engine, with a cancel.
pub proof fn lemma_run_ends_with_cancel(events: Seq<WorkerEventV>)
    requires
        events.len() > 0,
        events.last() is Disconnected || events.last() is Stopped,
    ensures
        run_ops(events).len() > 0,
        run_ops(events).last() == EngineOpV::Cancel,
{
}

} // verus!
