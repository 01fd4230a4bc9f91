//! The single-fire completion-callback model.
//!
//! A caller's completion handler is wrapped once and may then be duplicated
//! freely for fan-out; however many duplicates exist, the handler runs for
//! the first completion that reaches it and for no other. The ledger below
//! carries the one-shot flag of every wrapped handler; a duplicate is just
//! another holder of the same ledger slot.

use vstd::prelude::*;

verus! {

/// A handle on one wrapped completion handler. Duplicating the handle is
/// the fan-out operation: every copy names the same ledger slot, so all
/// copies together still fire at most once.
#[derive(Clone, Copy, Debug, PartialEq, Eq, Structural)]
pub struct AdaptedCallback {
    /// The ledger slot holding this handler's one-shot flag.
    pub id: usize,
}

/// One one-shot flag per wrapped handler: `true` once the handler has run.
pub struct CallbackLedger {
    fired: Vec<bool>,
}

/// Whether a completion arriving at slot `id` runs the handler.
pub open spec fn fires(ledger: Seq<bool>, id: int) -> bool {
    !ledger[id]
}

/// The ledger after a completion arrived at slot `id`.
pub open spec fn after_fire(ledger: Seq<bool>, id: int) -> Seq<bool> {
    ledger.update(id, true)
}

impl View for CallbackLedger {
    type V = Seq<bool>;

    closed spec fn view(&self) -> Seq<bool> {
        self.fired@
    }
}

impl CallbackLedger {
    /// A ledger with no wrapped handlers yet.
    pub fn new() -> (r: CallbackLedger)
        ensures
            r@ == Seq::<bool>::empty(),
    {
        CallbackLedger { fired: Vec::new() }
    }

    /// Wraps one completion handler: allocates a fresh unfired slot and
    /// hands back the handle every fan-out copy will share.
    pub fn wrap(&mut self) -> (cb: AdaptedCallback)
        ensures
            final(self)@ == old(self)@.push(false),
            cb.id == old(self)@.len(),
    {
        let id = self.fired.len();
        self.fired.push(false);
        AdaptedCallback { id }
    }

    /// Decides the race between completions: the first arrival at a slot
    /// wins and the handler runs; every later arrival, on this handle or on
    /// any copy of it, loses and is silently dropped.
    pub fn try_fire(&mut self, cb: &AdaptedCallback) -> (won: bool)
        requires
            cb.id < old(self)@.len(),
        ensures
            won == fires(old(self)@, cb.id as int),
            final(self)@ == after_fire(old(self)@, cb.id as int),
    {
        let was_fired = self.fired[cb.id];
        self.fired.set(cb.id, true);
        !was_fired
    }

    /// How many handlers have been wrapped so far.
    pub fn len(&self) -> (r: usize)
        ensures
            r == self@.len(),
    {
        self.fired.len()
    }
}

/// Law: however many copies of one wrapped handler exist, the handler runs
/// exactly once. The first completion to reach an unfired slot runs the
/// handler, and immediately afterwards no completion on that slot — from the
/// same handle or from any fan-out copy — runs it again.
pub proof fn lemma_single_fire(ledger: Seq<bool>, id: int)
    requires
        0 <= id < ledger.len(),
        !ledger[id],
    ensures
        fires(ledger, id),
        !fires(after_fire(ledger, id), id),
{
    assert(after_fire(ledger, id)[id]);
}

/// Law: a handler that has run stays run. Completions arriving at any slot
/// afterwards — for this handler or for any other — never make a later
/// completion on this slot fire again.
pub proof fn lemma_fired_stays_fired(ledger: Seq<bool>, id: int, other: int)
    requires
        0 <= id < ledger.len(),
        0 <= other < ledger.len(),
        !fires(ledger, id),
    ensures
        !fires(after_fire(ledger, other), id),
{
}

} // verus!
