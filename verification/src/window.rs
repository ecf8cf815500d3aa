//! The account windows of the payload-driven deposit: which stretch of the
//! flat account list belongs to which sub-call.

use crate::error::DepositError;
use crate::layout::{Operation, Target};
use vstd::prelude::*;
use vstd::slice::slice_subrange;

verus! {

/// The number of sub-calls of a payload-driven deposit.
pub const STEP_COUNT: usize = 8;

/// The number of leading positions of the flat account list that the
/// sub-calls address.
pub const RESERVED_ACCOUNTS: usize = 68;

/// The sub-calls of a payload-driven deposit, in the order they are invoked.
#[derive(Clone, Copy, Debug, PartialEq, Eq, Structural)]
pub enum Step {
    Initiate,
    InitObligation,
    InitObligationFarmsForReserve,
    RefreshReserve,
    RefreshObligation,
    RefreshObligationFarmsBeforeDeposit,
    DepositReserveLiquidityAndObligationCollateral,
    RefreshObligationFarmsAfterDeposit,
}

/// A stretch `[offset, offset + length)` of the flat account list.
#[derive(Clone, Copy, Debug, PartialEq, Eq, Structural)]
pub struct Window {
    pub offset: usize,
    pub length: usize,
}

/// Offset and length of every sub-call's window, by sub-call index.
pub open spec fn window_table() -> Seq<(int, int)> {
    seq![(0, 6), (6, 9), (15, 11), (26, 6), (32, 2), (34, 10), (44, 14), (58, 10)]
}

impl Step {
    /// The position of the sub-call in the sequence.
    pub open spec fn spec_index(self) -> int {
        match self {
            Step::Initiate => 0,
            Step::InitObligation => 1,
            Step::InitObligationFarmsForReserve => 2,
            Step::RefreshReserve => 3,
            Step::RefreshObligation => 4,
            Step::RefreshObligationFarmsBeforeDeposit => 5,
            Step::DepositReserveLiquidityAndObligationCollateral => 6,
            Step::RefreshObligationFarmsAfterDeposit => 7,
        }
    }

    /// The sub-call at a position of the sequence.
    pub open spec fn at(index: int) -> Step
        recommends
            0 <= index < STEP_COUNT,
    {
        if index <= 0 {
            Step::Initiate
        } else if index == 1 {
            Step::InitObligation
        } else if index == 2 {
            Step::InitObligationFarmsForReserve
        } else if index == 3 {
            Step::RefreshReserve
        } else if index == 4 {
            Step::RefreshObligation
        } else if index == 5 {
            Step::RefreshObligationFarmsBeforeDeposit
        } else if index == 6 {
            Step::DepositReserveLiquidityAndObligationCollateral
        } else {
            Step::RefreshObligationFarmsAfterDeposit
        }
    }

    /// The downstream operation the sub-call performs.
    pub open spec fn spec_operation(self) -> Operation {
        match self {
            Step::Initiate => Operation::Initiate,
            Step::InitObligation => Operation::InitObligation,
            Step::InitObligationFarmsForReserve => Operation::InitObligationFarmsForReserve,
            Step::RefreshReserve => Operation::RefreshReserve,
            Step::RefreshObligation => Operation::RefreshObligation,
            Step::RefreshObligationFarmsBeforeDeposit
            | Step::RefreshObligationFarmsAfterDeposit => Operation::RefreshObligationFarmsForReserve,
            Step::DepositReserveLiquidityAndObligationCollateral => {
                Operation::DepositReserveLiquidityAndObligationCollateral
            },
        }
    }

    /// Where the sub-call's window starts in the flat account list.
    pub open spec fn spec_offset(self) -> int {
        window_table()[self.spec_index()].0
    }

    /// How many accounts the sub-call's window holds.
    pub open spec fn spec_length(self) -> int {
        window_table()[self.spec_index()].1
    }

    /// The first position after the sub-call's window.
    pub open spec fn spec_end(self) -> int {
        self.spec_offset() + self.spec_length()
    }

    /// The position of the sub-call in the sequence.
    pub fn index(self) -> (index: usize)
        ensures
            index == self.spec_index(),
            index < STEP_COUNT,
    {
        match self {
            Step::Initiate => 0,
            Step::InitObligation => 1,
            Step::InitObligationFarmsForReserve => 2,
            Step::RefreshReserve => 3,
            Step::RefreshObligation => 4,
            Step::RefreshObligationFarmsBeforeDeposit => 5,
            Step::DepositReserveLiquidityAndObligationCollateral => 6,
            Step::RefreshObligationFarmsAfterDeposit => 7,
        }
    }

    /// The sub-call at a position of the sequence, or `None` past its end.
    pub fn from_index(index: usize) -> (step: Option<Step>)
        ensures
            index < STEP_COUNT ==> step == Some(Step::at(index as int)),
            index >= STEP_COUNT ==> step is None,
    {
        if index < STEP_COUNT {
            Some(Step::nth(index))
        } else {
            None
        }
    }

    /// The sub-call at a position within the sequence.
    pub(crate) fn nth(index: usize) -> (step: Step)
        requires
            index < STEP_COUNT,
        ensures
            step == Step::at(index as int),
            step.spec_index() == index,
    {
        match index {
            0 => Step::Initiate,
            1 => Step::InitObligation,
            2 => Step::InitObligationFarmsForReserve,
            3 => Step::RefreshReserve,
            4 => Step::RefreshObligation,
            5 => Step::RefreshObligationFarmsBeforeDeposit,
            6 => Step::DepositReserveLiquidityAndObligationCollateral,
            _ => Step::RefreshObligationFarmsAfterDeposit,
        }
    }

    /// The downstream operation the sub-call performs.
    pub fn operation(self) -> (operation: Operation)
        ensures
            operation == self.spec_operation(),
    {
        match self {
            Step::Initiate => Operation::Initiate,
            Step::InitObligation => Operation::InitObligation,
            Step::InitObligationFarmsForReserve => Operation::InitObligationFarmsForReserve,
            Step::RefreshReserve => Operation::RefreshReserve,
            Step::RefreshObligation => Operation::RefreshObligation,
            Step::RefreshObligationFarmsBeforeDeposit => Operation::RefreshObligationFarmsForReserve,
            Step::DepositReserveLiquidityAndObligationCollateral => {
                Operation::DepositReserveLiquidityAndObligationCollateral
            },
            Step::RefreshObligationFarmsAfterDeposit => Operation::RefreshObligationFarmsForReserve,
        }
    }

    /// The sub-call's window in the flat account list.
    pub fn window(self) -> (window: Window)
        ensures
            window.offset == self.spec_offset(),
            window.length == self.spec_length(),
    {
        let offset: usize = match self {
            Step::Initiate => 0,
            Step::InitObligation => 6,
            Step::InitObligationFarmsForReserve => 15,
            Step::RefreshReserve => 26,
            Step::RefreshObligation => 32,
            Step::RefreshObligationFarmsBeforeDeposit => 34,
            Step::DepositReserveLiquidityAndObligationCollateral => 44,
            Step::RefreshObligationFarmsAfterDeposit => 58,
        };
        Window { offset, length: self.operation().slot_count() }
    }
}

/// Position and sub-call determine each other.
pub proof fn lemma_index_round_trip(step: Step, index: int)
    ensures
        0 <= step.spec_index() < STEP_COUNT,
        Step::at(step.spec_index()) == step,
        0 <= index < STEP_COUNT ==> Step::at(index).spec_index() == index,
{
}

/// The sub-calls at positions 2, 5 and 7 go to the farms program, every
/// other one to the lending program.
pub proof fn lemma_targets(step: Step)
    ensures
        step.spec_operation().spec_target() == Target::Farms <==> (step.spec_index() == 2
            || step.spec_index() == 5 || step.spec_index() == 7),
        step.spec_operation().spec_target() == Target::Lending <==> (step.spec_index() == 0
            || step.spec_index() == 1 || step.spec_index() == 3 || step.spec_index() == 4
            || step.spec_index() == 6),
{
}

/// Every window holds exactly the slots of its operation and lies within the
/// reserved positions.
pub proof fn lemma_window_fits(step: Step)
    ensures
        step.spec_length() == step.spec_operation().spec_slot_count(),
        0 <= step.spec_offset(),
        step.spec_end() <= RESERVED_ACCOUNTS,
{
}

/// The windows are contiguous: each starts where its predecessor ends.
pub proof fn lemma_windows_contiguous(step: Step, next: Step)
    requires
        next.spec_index() == step.spec_index() + 1,
    ensures
        next.spec_offset() == step.spec_end(),
{
}

/// The windows span the reserved positions: the first starts at position 0
/// and the last ends with them.
pub proof fn lemma_windows_span()
    ensures
        Step::Initiate.spec_offset() == 0,
        Step::RefreshObligationFarmsAfterDeposit.spec_end() == RESERVED_ACCOUNTS,
{
}

/// The windows do not overlap: no position of the flat account list belongs
/// to the windows of two different sub-calls.
pub proof fn lemma_windows_disjoint(a: Step, b: Step, position: int)
    requires
        a.spec_offset() <= position < a.spec_end(),
        b.spec_offset() <= position < b.spec_end(),
    ensures
        a == b,
{
}

/// Every reserved position belongs to the window of some sub-call.
pub proof fn lemma_windows_cover(position: int) -> (step: Step)
    requires
        0 <= position < RESERVED_ACCOUNTS,
    ensures
        step.spec_offset() <= position < step.spec_end(),
{
    if position < 6 {
        Step::Initiate
    } else if position < 15 {
        Step::InitObligation
    } else if position < 26 {
        Step::InitObligationFarmsForReserve
    } else if position < 32 {
        Step::RefreshReserve
    } else if position < 34 {
        Step::RefreshObligation
    } else if position < 44 {
        Step::RefreshObligationFarmsBeforeDeposit
    } else if position < 58 {
        Step::DepositReserveLiquidityAndObligationCollateral
    } else {
        Step::RefreshObligationFarmsAfterDeposit
    }
}

/// Selects a sub-call's window out of the flat account list.
///
/// Fails with `InsufficientAccounts` exactly when the list holds fewer than
/// the reserved positions; otherwise the window is the stretch of the list
/// that the table gives for the sub-call, in order.
pub fn select_window<'a, T>(accounts: &'a [T], step: Step) -> (selected: Result<
    &'a [T],
    DepositError,
>)
    ensures
        accounts@.len() < RESERVED_ACCOUNTS ==> selected == Err::<&[T], DepositError>(
            DepositError::InsufficientAccounts,
        ),
        accounts@.len() >= RESERVED_ACCOUNTS ==> (selected matches Ok(window) && window@
            == accounts@.subrange(step.spec_offset(), step.spec_end())),
{
    if accounts.len() < RESERVED_ACCOUNTS {
        return Err(DepositError::InsufficientAccounts);
    }
    let window = step.window();
    Ok(slice_subrange(accounts, window.offset, window.offset + window.length))
}

} // verus!
