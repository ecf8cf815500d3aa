//! The sequencing rule: sub-calls run one after the other, and the first
//! failure ends the deposit.

use crate::descriptor::{SubCall, SubCallView};
use crate::error::DepositError;
use anchor_lang::solana_program::account_info::AccountInfo;
use anchor_lang::solana_program::program_error::ProgramError;
use vstd::prelude::*;

verus! {

/// What the sequencer does once a sub-call has returned.
#[derive(Debug, PartialEq, Eq)]
pub enum Decision {
    /// Invoke the sub-call at position `next`.
    Proceed { next: usize },
    /// Every sub-call has succeeded: the deposit is done.
    Complete,
    /// The sub-call failed: nothing more is invoked and `failure` is the
    /// result of the deposit.
    Abort { failure: DepositError },
}

/// `outcome` is an answer of `invoke` to the sub-call `expected`, handed over
/// with the account handles `handles`.
pub open spec fn answered<'info, F: Fn(&SubCall, &[AccountInfo<'info>]) -> Result<(), ProgramError>>(
    invoke: F,
    expected: SubCallView,
    handles: Seq<AccountInfo<'info>>,
    outcome: Result<(), ProgramError>,
) -> bool {
    exists|call: SubCall, window: &[AccountInfo<'info>]|
        call@ == expected && window@ == handles && call_ensures(invoke, (&call, window), outcome)
}

/// The decision after the sub-call at `position`, of `count` in all, has
/// returned `outcome`.
pub open spec fn decide(count: usize, position: usize, outcome: Result<(), ProgramError>) -> Decision {
    match outcome {
        Err(error) => Decision::Abort {
            failure: DepositError::SubCallFailure { index: position, error },
        },
        Ok(_) => if position + 1 < count {
            Decision::Proceed { next: (position + 1) as usize }
        } else {
            Decision::Complete
        },
    }
}

/// Decides what follows the sub-call at `position`, of `count` in all, given
/// the `outcome` it returned: a failure aborts with the downstream error
/// unchanged, a success leads to the next position or, after the last
/// sub-call, to completion.
pub fn advance(count: usize, position: usize, outcome: Result<(), ProgramError>) -> (decision:
    Decision)
    ensures
        decision == decide(count, position, outcome),
{
    match outcome {
        Err(error) => Decision::Abort {
            failure: DepositError::SubCallFailure { index: position, error },
        },
        Ok(_) => {
            if position < count && position + 1 < count {
                Decision::Proceed { next: position + 1 }
            } else {
                Decision::Complete
            }
        },
    }
}

/// A deposit from `position` on, as a function of what the downstream
/// programs answer: `outcomes[k]` is the outcome of the sub-call at position
/// `k`. The first component lists the positions invoked, in the order of
/// invocation; the second is the result of the deposit.
pub open spec fn run_from(count: usize, position: usize, outcomes: Seq<Result<(), ProgramError>>) -> (
    Seq<int>,
    Result<(), DepositError>,
)
    recommends
        count <= outcomes.len(),
    decreases count - position,
{
    if position >= count {
        (Seq::empty(), Ok(()))
    } else {
        match decide(count, position, outcomes[position as int]) {
            Decision::Proceed { next } => {
                let rest = run_from(count, next, outcomes);
                (seq![position as int] + rest.0, rest.1)
            },
            Decision::Complete => (seq![position as int], Ok(())),
            Decision::Abort { failure } => (seq![position as int], Err(failure)),
        }
    }
}

/// A whole deposit of `count` sub-calls: the positions invoked, in order,
/// and the result.
pub open spec fn run(count: usize, outcomes: Seq<Result<(), ProgramError>>) -> (
    Seq<int>,
    Result<(), DepositError>,
)
    recommends
        count <= outcomes.len(),
{
    run_from(count, 0, outcomes)
}

/// The first position from `position` on whose sub-call fails, or `count`
/// where none does.
spec fn first_failure(
    count: usize,
    position: usize,
    outcomes: Seq<Result<(), ProgramError>>,
) -> int
    recommends
        count <= outcomes.len(),
    decreases count - position,
{
    if position >= count {
        count as int
    } else if outcomes[position as int] is Err {
        position as int
    } else {
        first_failure(count, (position + 1) as usize, outcomes)
    }
}

proof fn lemma_run_from(count: usize, position: usize, outcomes: Seq<Result<(), ProgramError>>)
    requires
        position <= count <= outcomes.len(),
    ensures
        ({
            let (invoked, result) = run_from(count, position, outcomes);
            let stop = first_failure(count, position, outcomes);
            &&& position <= stop <= count
            &&& forall|k: int| position <= k < stop ==> outcomes[k] is Ok
            &&& stop < count ==> outcomes[stop] is Err
            &&& invoked.len() == (if stop < count { stop + 1 } else { stop }) - position
            &&& forall|k: int| 0 <= k < invoked.len() ==> invoked[k] == position + k
            &&& stop < count ==> result == Err::<(), DepositError>(
                DepositError::SubCallFailure { index: stop as usize, error: outcomes[stop]->Err_0 },
            )
            &&& stop == count ==> result == Ok::<(), DepositError>(())
        }),
    decreases count - position,
{
    if position < count && outcomes[position as int] is Ok {
        lemma_run_from(count, (position + 1) as usize, outcomes);
    }
}

/// A deposit whose sub-calls up to `last` succeed, and whose sub-call at
/// `last` fails or is the final one, invokes the positions up to `last` and
/// ends as the sub-call at `last` does.
pub proof fn lemma_run_ends_at(count: usize, outcomes: Seq<Result<(), ProgramError>>, last: int)
    requires
        count <= outcomes.len(),
        0 <= last < count,
        forall|k: int| 0 <= k < last ==> outcomes[k] is Ok,
        outcomes[last] is Err || last + 1 == count,
    ensures
        run(count, outcomes).0.len() == last + 1,
        run(count, outcomes).1 == match outcomes[last] {
            Ok(_) => Ok::<(), DepositError>(()),
            Err(error) => Err(DepositError::SubCallFailure { index: last as usize, error }),
        },
{
    lemma_run_from(count, 0, outcomes);
}

/// Sub-calls are invoked in strictly increasing order: the deposit starts
/// with the sub-call at position 0 and every further invocation is of the
/// position that follows the one before.
pub proof fn lemma_invoked_in_order(count: usize, outcomes: Seq<Result<(), ProgramError>>, k: int)
    requires
        count <= outcomes.len(),
        0 <= k < run(count, outcomes).0.len(),
    ensures
        run(count, outcomes).0[k] == k,
        k < count,
{
    lemma_run_from(count, 0, outcomes);
}

/// Nothing is invoked after a failure: where the sub-call at position
/// `failed` fails, no sub-call at a later position is invoked, and the
/// deposit fails.
pub proof fn lemma_nothing_after_failure(
    count: usize,
    outcomes: Seq<Result<(), ProgramError>>,
    failed: int,
)
    requires
        count <= outcomes.len(),
        0 <= failed < count,
        outcomes[failed] is Err,
    ensures
        run(count, outcomes).0.len() <= failed + 1,
        forall|k: int|
            0 <= k < run(count, outcomes).0.len() ==> #[trigger] run(count, outcomes).0[k]
                <= failed,
        run(count, outcomes).1 is Err,
{
    lemma_run_from(count, 0, outcomes);
}

/// A sub-call is invoked exactly when every sub-call before it succeeded.
pub proof fn lemma_invoked_iff_predecessors_succeeded(
    count: usize,
    outcomes: Seq<Result<(), ProgramError>>,
    position: int,
)
    requires
        count <= outcomes.len(),
        0 <= position < count,
    ensures
        position < run(count, outcomes).0.len() <==> (forall|k: int|
            0 <= k < position ==> outcomes[k] is Ok),
{
    lemma_run_from(count, 0, outcomes);
}

/// A deposit fails only by a sub-call: the last one invoked, whose position
/// and error make up the failure.
pub proof fn lemma_failure(count: usize, outcomes: Seq<Result<(), ProgramError>>)
    requires
        count <= outcomes.len(),
        run(count, outcomes).1 is Err,
    ensures
        ({
            let last = run(count, outcomes).0.len() - 1;
            &&& 0 <= last < count
            &&& outcomes[last] is Err
            &&& run(count, outcomes).1 == Err::<(), DepositError>(
                DepositError::SubCallFailure { index: last as usize, error: outcomes[last]->Err_0 },
            )
        }),
{
    lemma_run_from(count, 0, outcomes);
}

/// The deposit succeeds exactly when every one of its sub-calls succeeds,
/// and then every sub-call has been invoked.
pub proof fn lemma_success(count: usize, outcomes: Seq<Result<(), ProgramError>>)
    requires
        count <= outcomes.len(),
    ensures
        run(count, outcomes).1 is Ok <==> (forall|k: int| 0 <= k < count ==> outcomes[k] is Ok),
        run(count, outcomes).1 is Ok ==> run(count, outcomes).0.len() == count,
{
    lemma_run_from(count, 0, outcomes);
}

} // verus!
