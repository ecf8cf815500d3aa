//! The ways a deposit can fail.

use anchor_lang::solana_program::program_error::ProgramError;
use vstd::prelude::*;

verus! {

/// Why a deposit did not complete. Nothing is recovered locally: the host
/// rolls the whole transaction back.
#[derive(Debug, PartialEq, Eq)]
pub enum DepositError {
    /// The account list is short of the slots the sub-calls address.
    InsufficientAccounts,
    /// Fewer payloads were supplied than there are sub-calls.
    MissingPayload,
    /// The sub-call at position `index` failed; `error` is what the
    /// downstream program reported, unchanged.
    SubCallFailure { index: usize, error: ProgramError },
}

} // verus!
