//! The ordered action queue between the request facade and the single
//! session worker.
//!
//! The queue carries typed work items in first-in first-out order from any
//! number of producers to the one consumer. Enqueueing never blocks and
//! only fails once the consumer has permanently stopped; then nothing is
//! enqueued and the producer is told the queue is closed.

use vstd::prelude::*;

use crate::callback::AdaptedCallback;
use crate::errors::Error;
use crate::requests::{RegisterRequest, RegisterRequestV, SignRequest, SignRequestV};

verus! {

/// One work item for the session worker.
pub enum Action {
    /// Dispatch a credential registration to the engine.
    Register {
        /// Request timeout, in milliseconds, passed through to the engine.
        timeout: u64,
        /// The registration command.
        request: RegisterRequest,
        /// The single-fire handle the engine completes through.
        callback: AdaptedCallback,
    },
    /// Dispatch one credential-signing attempt to the engine.
    Sign {
        /// Request timeout, in milliseconds, passed through to the engine.
        timeout: u64,
        /// The signing command for one (application id, key handle) pair.
        request: SignRequest,
        /// The single-fire handle shared by every attempt of the fan-out.
        callback: AdaptedCallback,
    },
    /// Stop the in-flight engine operation and wait until it has stopped.
    Cancel,
}

/// Mathematical model of an `Action`.
#[verifier::ext_equal]
pub enum ActionV {
    Register { timeout: u64, request: RegisterRequestV, callback: AdaptedCallback },
    Sign { timeout: u64, request: SignRequestV, callback: AdaptedCallback },
    Cancel,
}

impl View for Action {
    type V = ActionV;

    open spec fn view(&self) -> ActionV {
        match self {
            Action::Register { timeout, request, callback } => ActionV::Register {
                timeout: *timeout,
                request: request@,
                callback: *callback,
            },
            Action::Sign { timeout, request, callback } => ActionV::Sign {
                timeout: *timeout,
                request: request@,
                callback: *callback,
            },
            Action::Cancel => ActionV::Cancel,
        }
    }
}

/// The single-fire callback an action carries, if it carries one.
pub open spec fn action_callback(a: ActionV) -> Option<AdaptedCallback> {
    match a {
        ActionV::Register { callback, .. } => Some(callback),
        ActionV::Sign { callback, .. } => Some(callback),
        ActionV::Cancel => None,
    }
}

/// The pending actions of a queue, oldest first.
pub open spec fn actions_view(items: Seq<Action>) -> Seq<ActionV> {
    items.map_values(|a: Action| a@)
}

/// The multi-producer single-consumer action channel: pending items in
/// first-in first-out order, plus whether the consumer still accepts work.
pub struct ActionQueue {
    items: Vec<Action>,
    open: bool,
}

impl View for ActionQueue {
    type V = Seq<ActionV>;

    closed spec fn view(&self) -> Seq<ActionV> {
        actions_view(self.items@)
    }
}

impl ActionQueue {
    /// Whether the consumer still accepts work.
    pub closed spec fn is_open(self) -> bool {
        self.open
    }

    /// An empty, open queue.
    pub fn new() -> (r: ActionQueue)
        ensures
            r@ == Seq::<ActionV>::empty(),
            r.is_open(),
    {
        ActionQueue { items: Vec::new(), open: true }
    }

    /// Enqueues one action at the tail. Never blocks; fails exactly when
    /// the consumer has permanently stopped, and then enqueues nothing.
    pub fn send(&mut self, action: Action) -> (r: Result<(), Error>)
        ensures
            old(self).is_open() ==> {
                &&& r is Ok
                &&& final(self)@ == old(self)@.push(action@)
                &&& final(self).is_open()
            },
            !old(self).is_open() ==> {
                &&& r == Err::<(), Error>(Error::QueueClosed)
                &&& final(self)@ == old(self)@
                &&& !final(self).is_open()
            },
    {
        if !self.open {
            return Err(Error::QueueClosed);
        }
        let ghost before = self.items@;
        self.items.push(action);
        proof {
            assert(actions_view(before.push(self.items@.last())) =~= actions_view(before).push(
                self.items@.last()@,
            ));
        }
        Ok(())
    }

    /// Takes the next action in first-in first-out order; `None` when no
    /// action is pending.
    pub fn recv(&mut self) -> (r: Option<Action>)
        ensures
            old(self)@.len() == 0 ==> {
                &&& r is None
                &&& final(self)@ == old(self)@
            },
            old(self)@.len() > 0 ==> {
                &&& r matches Some(a) && a@ == old(self)@[0]
                &&& final(self)@ == old(self)@.drop_first()
            },
            final(self).is_open() == old(self).is_open(),
    {
        if self.items.len() == 0 {
            return None;
        }
        let ghost before = self.items@;
        let action = self.items.remove(0);
        proof {
            assert(actions_view(before.remove(0)) =~= actions_view(before).drop_first());
        }
        Some(action)
    }

    /// Marks the consumer as permanently stopped: every later `send` fails.
    pub fn close(&mut self)
        ensures
            final(self)@ == old(self)@,
            !final(self).is_open(),
    {
        self.open = false;
    }

    /// Whether the consumer still accepts work.
    pub fn check_open(&self) -> (r: bool)
        ensures
            r == self.is_open(),
    {
        self.open
    }

    /// How many actions are pending.
    pub fn len(&self) -> (r: usize)
        ensures
            r == self@.len(),
    {
        self.items.len()
    }
}

} // verus!
