//! The recursive aggregation engine's state: folding a non-empty list of
//! batch proof artifacts into one, one round per batch.
//!
//! The recursion circuit's verifying key depends on a proof that itself
//! depends on that key.  The cycle is broken in two phases: a throwaway
//! circuit instance built over a contentless placeholder artifact and the
//! first batch artifact yields the key pair and is then discarded (its
//! output never encodes the genuine pre-state), and only then is the
//! legitimate seed state constructed with the now-known key and the real
//! folding loop entered.  The circuit invocations themselves are external;
//! this module pins down every decision the loop makes and proves that it
//! finishes in exactly as many rounds as there are batches.

use vstd::prelude::*;
use crate::snark::{Snark, SnarkView};
use crate::errors::BatchProverError;

verus! {

/// The work left to the folding loop: the batch artifacts not yet folded,
/// and the recursion round reached so far.
pub struct RecursionTask {
    pub remaining: Vec<Snark>,
    pub round: u64,
}

/// The mathematical content of a recursion task.
pub ghost struct RecursionTaskView {
    pub remaining: Seq<SnarkView>,
    pub round: int,
}

impl View for RecursionTask {
    type V = RecursionTaskView;

    open spec fn view(&self) -> RecursionTaskView {
        RecursionTaskView { remaining: self.remaining.deep_view(), round: self.round as int }
    }
}

/// The task state reached after `k` folding rounds over `snarks`.
pub open spec fn spec_task_after(snarks: Seq<SnarkView>, k: int) -> RecursionTaskView {
    RecursionTaskView { remaining: snarks.skip(k), round: k }
}

impl RecursionTask {
    /// A fresh task: all batch artifacts remain, no round folded yet.
    pub fn new(batch_snarks: Vec<Snark>) -> (r: RecursionTask)
        ensures
            r@ == spec_task_after(batch_snarks.deep_view(), 0),
    {
        let r = RecursionTask { remaining: batch_snarks, round: 0 };
        proof {
            assert(r.remaining.deep_view().skip(0) =~= r.remaining.deep_view());
        }
        r
    }

    /// Whether every batch artifact has been folded.
    pub fn completed(&self) -> (r: bool)
        ensures
            r == (self@.remaining.len() == 0),
    {
        self.remaining.len() == 0
    }

    /// The next batch artifact to fold.
    pub fn iter_snark(&self) -> (r: &Snark)
        requires
            self@.remaining.len() > 0,
        ensures
            r@ == self@.remaining[0],
    {
        &self.remaining[0]
    }

    /// Consume the next batch artifact and advance one round: a linear,
    /// strictly decreasing state machine.
    pub fn state_transition(self) -> (r: RecursionTask)
        requires
            self@.remaining.len() > 0,
            self@.round < u64::MAX,
        ensures
            r@.remaining == self@.remaining.skip(1),
            r@.round == self@.round + 1,
    {
        let mut remaining = self.remaining;
        let ghost before = remaining.deep_view();
        remaining.remove(0);
        proof {
            assert(remaining.deep_view() =~= before.skip(1));
        }
        RecursionTask { remaining, round: self.round + 1 }
    }
}

/// Folding zero batches is undefined: the engine fails fast, before any
/// circuit is constructed.
pub fn check_batch_snarks_nonempty(batch_snarks: &Vec<Snark>) -> (r: Result<
    (),
    BatchProverError,
>)
    ensures
        r is Ok <==> batch_snarks@.len() > 0,
{
    if batch_snarks.len() == 0 {
        Err(BatchProverError::Custom(String::from_str("no batch snarks to fold")))
    } else {
        Ok(())
    }
}

/// One step of the folding loop as the driver sees it: either fold the
/// next batch artifact at the current round, or stop.
pub enum RecursionAction {
    /// Build the recursion circuit over the running artifact and the next
    /// batch artifact, at this round number.
    Fold { round: u64 },
    /// Every batch has been folded; the running artifact is the result.
    Finished,
}

/// Decide the next step of the folding loop.
pub fn next_action(task: &RecursionTask) -> (r: RecursionAction)
    ensures
        task@.remaining.len() == 0 ==> r is Finished,
        task@.remaining.len() > 0 ==> (r matches RecursionAction::Fold { round } && round
            == task@.round),
{
    if task.remaining.len() == 0 {
        RecursionAction::Finished
    } else {
        RecursionAction::Fold { round: task.round }
    }
}

/// Transitions advance through the reachable task states in order: one
/// step from the state after `k` rounds is the state after `k + 1`.
pub proof fn lemma_task_step(snarks: Seq<SnarkView>, k: int)
    requires
        0 <= k < snarks.len(),
    ensures
        spec_task_after(snarks, k).remaining.skip(1) == spec_task_after(snarks, k + 1).remaining,
        spec_task_after(snarks, k).round + 1 == spec_task_after(snarks, k + 1).round,
{
    assert(snarks.skip(k).skip(1) =~= snarks.skip(k + 1));
}

/// Recursion termination: starting from a fresh task over `n` batch
/// artifacts, the state after `k` rounds is completed exactly when
/// `k == n`.  The loop therefore runs exactly `n` rounds: every earlier
/// state still holds work, and the state after `n` rounds holds none.
pub proof fn lemma_recursion_termination(snarks: Seq<SnarkView>, k: int)
    requires
        0 <= k <= snarks.len(),
    ensures
        spec_task_after(snarks, k).remaining.len() == 0 <==> k == snarks.len(),
        spec_task_after(snarks, k).round == k,
{
    assert(snarks.skip(k).len() == snarks.len() - k);
}

} // verus!
