//! The boundary to the host runtime: the account handles it supplies and the
//! cross-program invocation it performs.

use crate::address::Address;
use crate::descriptor::SubCall;
use anchor_lang::solana_program::account_info::AccountInfo;
use anchor_lang::solana_program::instruction::{AccountMeta, Instruction};
use anchor_lang::solana_program::program::invoke;
use anchor_lang::solana_program::program_error::ProgramError;
use anchor_lang::solana_program::pubkey::Pubkey;
use vstd::prelude::*;

verus! {

/// The host's handle to an account. Its contents are never read by verified
/// code, which only passes handles on.
#[verifier::external_type_specification]
#[verifier::external_body]
pub struct ExAccountInfo<'a>(AccountInfo<'a>);

/// The error a downstream program reports.
#[verifier::external_type_specification]
#[verifier::external_body]
pub struct ExProgramError(ProgramError);

/// `AccountInfo::clone`, which the crate derives: the copy holds the same
/// references and flags and shares the same cells, so it is taken to equal
/// the handle it was made from.
pub assume_specification<'a>[ <AccountInfo<'a> as Clone>::clone ](info: &AccountInfo<'a>) -> (copy:
    AccountInfo<'a>)
    ensures
        copy == *info,
;

/// Reads the address out of an account handle: the bytes of the key that
/// `AccountInfo::key` points to, as `Pubkey::to_bytes` gives them. Nothing is
/// claimed of the result.
#[verifier::external_body]
pub(crate) fn account_address(info: &AccountInfo<'_>) -> (address: Address) {
    Address { bytes: info.key.to_bytes() }
}

/// Reads the address of every account of a list, in order.
pub(crate) fn account_addresses(accounts: &[AccountInfo<'_>]) -> (addresses: Vec<Address>)
    ensures
        addresses@.len() == accounts@.len(),
{
    let mut addresses: Vec<Address> = Vec::with_capacity(accounts.len());
    let mut position: usize = 0;
    while position < accounts.len()
        invariant
            position <= accounts@.len(),
            addresses@.len() == position,
        decreases accounts@.len() - position,
    {
        addresses.push(account_address(&accounts[position]));
        position += 1;
    }
    addresses
}

/// Hands a sub-call to the downstream program through the host's
/// cross-program invocation, `solana_program::program::invoke`, together with
/// the handles of the accounts it may touch. The sub-call is handed over as
/// an `Instruction` with the same program, the same slots in the same order
/// and the same payload. Nothing is claimed of the outcome: it is the
/// downstream program's, or the host's where it refuses the call.
#[verifier::external_body]
pub(crate) fn invoke_sub_call(call: &SubCall, window: &[AccountInfo<'_>]) -> (outcome: Result<
    (),
    ProgramError,
>) {
    let accounts = call.accounts.iter().map(|slot| AccountMeta {
        pubkey: Pubkey::new_from_array(slot.address.bytes),
        is_signer: slot.is_signer,
        is_writable: slot.is_writable,
    }).collect();
    let program_id = Pubkey::new_from_array(call.program_id.bytes);
    invoke(&Instruction { program_id, accounts, data: call.data.clone() }, window)
}

} // verus!
