//! Folding the final states of all jobs' runs into one result for the process.
use vstd::prelude::*;
use crate::runner::RunState;

verus! {

/// No run ended in `Failed`.
pub open spec fn none_failed(states: Seq<RunState>) -> bool {
    forall|i: int| 0 <= i < states.len() ==> states[i] != RunState::Failed
}

/// Whether the whole watch succeeded: it fails iff some job's run failed.
pub fn all_jobs_succeeded(states: &Vec<RunState>) -> (r: bool)
    ensures
        r == none_failed(states@),
        !r <==> exists|i: int| 0 <= i < states@.len() && states@[i] == RunState::Failed,
{
    let mut i: usize = 0;
    while i < states.len()
        invariant
            i <= states.len(),
            forall|j: int| 0 <= j < i ==> states@[j] != RunState::Failed,
        decreases states.len() - i,
    {
        if states[i] == RunState::Failed {
            return false;
        }
        i = i + 1;
    }
    true
}

/// The process exit status: 0 on success, 1 on failure.
pub fn exit_code(success: bool) -> (r: i32)
    ensures
        success ==> r == 0,
        !success ==> r == 1,
{
    if success {
        0
    } else {
        1
    }
}

} // verus!
