//! Running a plan: its steps go strictly in order, and the first step that
//! fails ends the run.
use vstd::prelude::*;

verus! {

/// Where a run of a plan stands.
#[derive(Clone, Copy, Debug, PartialEq, Eq, Structural)]
pub enum Progress {
    /// The step at this index is to be performed next.
    Next(usize),
    /// Every step succeeded.
    Done,
    /// The step at this index failed, and the run is over.
    Failed(usize),
}

/// Where a run of `n` steps begins.
pub open spec fn start_of(n: usize) -> Progress {
    if n == 0 {
        Progress::Done
    } else {
        Progress::Next(0)
    }
}

/// Where a run of `n` steps stands once step `index` has ended.
pub open spec fn after_of(n: usize, index: usize, succeeded: bool) -> Progress {
    if !succeeded {
        Progress::Failed(index)
    } else if index + 1 < n {
        Progress::Next((index + 1) as usize)
    } else {
        Progress::Done
    }
}

/// Where a run of `n` steps stands after `k` steps have ended, the step at
/// index `i` with outcome `results[i]`.
pub open spec fn progress_after(n: usize, results: Seq<bool>, k: nat) -> Progress
    decreases k,
{
    if k == 0 {
        start_of(n)
    } else {
        match progress_after(n, results, (k - 1) as nat) {
            Progress::Next(i) => after_of(n, i, results[i as int]),
            p => p,
        }
    }
}

/// Where a run of `n_steps` steps begins: at the first step, or done when
/// there is none.
pub fn start(n_steps: usize) -> (r: Progress)
    ensures
        r == start_of(n_steps),
{
    if n_steps == 0 {
        Progress::Done
    } else {
        Progress::Next(0)
    }
}

/// Where a run of `n_steps` steps goes once step `index` has ended: on to
/// the next step, done after the last, or failed at `index`.
pub fn after_step(n_steps: usize, index: usize, succeeded: bool) -> (r: Progress)
    requires
        index < n_steps,
    ensures
        r == after_of(n_steps, index, succeeded),
{
    if !succeeded {
        Progress::Failed(index)
    } else if index + 1 < n_steps {
        Progress::Next(index + 1)
    } else {
        Progress::Done
    }
}

/// A run visits the steps in order. After `k` steps have ended, if all of
/// them succeeded the run stands at step `k` (or is done when no step is
/// left); if one failed, the run has failed at the first that failed, and no
/// later step was performed.
pub proof fn lemma_run_order(n: usize, results: Seq<bool>, k: nat)
    requires
        k <= n,
        results.len() >= n,
    ensures
        (forall|j: int| 0 <= j < k ==> results[j]) ==> progress_after(n, results, k) == (if k < n {
            Progress::Next(k as usize)
        } else {
            Progress::Done
        }),
        forall|i: int|
            0 <= i < k && !results[i] && (forall|j: int| 0 <= j < i ==> results[j])
                ==> progress_after(n, results, k) == Progress::Failed(i as usize),
    decreases k,
{
    if k > 0 {
        let k1 = (k - 1) as nat;
        lemma_run_order(n, results, k1);
        assert forall|i: int|
            0 <= i < k && !results[i] && (forall|j: int| 0 <= j < i ==> results[j])
                implies progress_after(n, results, k) == Progress::Failed(i as usize) by {
            if i < k1 {
                assert(progress_after(n, results, k1) == Progress::Failed(i as usize));
            } else {
                assert(progress_after(n, results, k1) == Progress::Next(k1 as usize));
            }
        }
    }
}

/// A run of `n` steps ends in `Done` when every step succeeds, and in
/// `Failed` at the first failing step otherwise.
pub proof fn lemma_run_outcome(n: usize, results: Seq<bool>)
    requires
        results.len() >= n,
    ensures
        (forall|j: int| 0 <= j < n ==> results[j]) ==> progress_after(n, results, n as nat)
            == Progress::Done,
        forall|i: int|
            0 <= i < n && !results[i] && (forall|j: int| 0 <= j < i ==> results[j])
                ==> progress_after(n, results, n as nat) == Progress::Failed(i as usize),
{
    lemma_run_order(n, results, n as nat);
}

} // verus!
