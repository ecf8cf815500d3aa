//! The payload-driven deposit: the caller supplies one opaque payload per
//! sub-call and a single flat list of accounts, and the orchestrator forwards
//! each payload with its window of the list.

use crate::address::Address;
use crate::descriptor::{build_sub_call, paired, SubCall, SubCallView};
use crate::error::DepositError;
use crate::host::{account_address, account_addresses, invoke_sub_call};
use crate::layout::Target;
use crate::sequencer::{advance, answered, lemma_run_ends_at, run, Decision};
use crate::window::{select_window, Step, RESERVED_ACCOUNTS, STEP_COUNT};
use anchor_lang::solana_program::account_info::AccountInfo;
use anchor_lang::solana_program::program_error::ProgramError;
use vstd::prelude::*;

verus! {

/// The sub-call that `step` sends to `program_id`: its slots hold the step's
/// window of `addresses`, in order, under the flags of its operation, and
/// its payload is `payload`.
pub open spec fn sub_call_to(
    step: Step,
    program_id: Address,
    addresses: Seq<Address>,
    payload: Seq<u8>,
) -> SubCallView
    recommends
        step.spec_end() <= addresses.len(),
{
    SubCallView {
        program_id,
        accounts: paired(
            addresses.subrange(step.spec_offset(), step.spec_end()),
            step.spec_operation().flag_row(),
        ),
        data: payload,
    }
}

/// The address of the program a target stands for.
pub open spec fn program_of(target: Target, lending: Address, farms: Address) -> Address {
    match target {
        Target::Lending => lending,
        Target::Farms => farms,
    }
}

/// The sub-call of `step` in a deposit against the programs `lending` and
/// `farms`.
pub open spec fn expected_sub_call(
    step: Step,
    lending: Address,
    farms: Address,
    addresses: Seq<Address>,
    payload: Seq<u8>,
) -> SubCallView
    recommends
        step.spec_end() <= addresses.len(),
{
    sub_call_to(
        step,
        program_of(step.spec_operation().spec_target(), lending, farms),
        addresses,
        payload,
    )
}

fn build_step(step: Step, program_id: &Address, accounts: &[Address], data: Vec<u8>) -> (returned:
    Result<SubCall, DepositError>)
    ensures
        accounts@.len() < RESERVED_ACCOUNTS ==> returned == Err::<SubCall, DepositError>(
            DepositError::InsufficientAccounts,
        ),
        accounts@.len() >= RESERVED_ACCOUNTS ==> (returned matches Ok(call) && call@ == sub_call_to(
            step,
            *program_id,
            accounts@,
            data@,
        )),
{
    let window = match select_window(accounts, step) {
        Ok(window) => window,
        Err(error) => return Err(error),
    };
    let flags = step.operation().flags();
    Ok(build_sub_call(*program_id, window, flags.as_slice(), data))
}

/// Builds the `initiate` sub-call from the flat account list.
pub fn initiate_ixns(kamino_program_id: &Address, accounts: &[Address], data: Vec<u8>) -> (returned:
    Result<SubCall, DepositError>)
    ensures
        accounts@.len() < RESERVED_ACCOUNTS ==> returned == Err::<SubCall, DepositError>(
            DepositError::InsufficientAccounts,
        ),
        accounts@.len() >= RESERVED_ACCOUNTS ==> (returned matches Ok(call) && call@ == sub_call_to(
            Step::Initiate,
            *kamino_program_id,
            accounts@,
            data@,
        )),
{
    build_step(Step::Initiate, kamino_program_id, accounts, data)
}

/// Builds the `init_obligation` sub-call from the flat account list.
pub fn init_obligation_instruction(
    kamino_program_id: &Address,
    accounts: &[Address],
    data: Vec<u8>,
) -> (returned: Result<SubCall, DepositError>)
    ensures
        accounts@.len() < RESERVED_ACCOUNTS ==> returned == Err::<SubCall, DepositError>(
            DepositError::InsufficientAccounts,
        ),
        accounts@.len() >= RESERVED_ACCOUNTS ==> (returned matches Ok(call) && call@ == sub_call_to(
            Step::InitObligation,
            *kamino_program_id,
            accounts@,
            data@,
        )),
{
    build_step(Step::InitObligation, kamino_program_id, accounts, data)
}

/// Builds the `init_obligation_farms_for_reserve` sub-call from the flat
/// account list.
pub fn init_obligation_farms_for_reserve_instruction(
    farms_program_id: &Address,
    accounts: &[Address],
    data: Vec<u8>,
) -> (returned: Result<SubCall, DepositError>)
    ensures
        accounts@.len() < RESERVED_ACCOUNTS ==> returned == Err::<SubCall, DepositError>(
            DepositError::InsufficientAccounts,
        ),
        accounts@.len() >= RESERVED_ACCOUNTS ==> (returned matches Ok(call) && call@ == sub_call_to(
            Step::InitObligationFarmsForReserve,
            *farms_program_id,
            accounts@,
            data@,
        )),
{
    build_step(Step::InitObligationFarmsForReserve, farms_program_id, accounts, data)
}

/// Builds the `refresh_reserve` sub-call from the flat account list.
pub fn refresh_reserve_instruction(
    kamino_program_id: &Address,
    accounts: &[Address],
    data: Vec<u8>,
) -> (returned: Result<SubCall, DepositError>)
    ensures
        accounts@.len() < RESERVED_ACCOUNTS ==> returned == Err::<SubCall, DepositError>(
            DepositError::InsufficientAccounts,
        ),
        accounts@.len() >= RESERVED_ACCOUNTS ==> (returned matches Ok(call) && call@ == sub_call_to(
            Step::RefreshReserve,
            *kamino_program_id,
            accounts@,
            data@,
        )),
{
    build_step(Step::RefreshReserve, kamino_program_id, accounts, data)
}

/// Builds the `refresh_obligation` sub-call from the flat account list.
pub fn refresh_obligation_instruction(
    kamino_program_id: &Address,
    accounts: &[Address],
    data: Vec<u8>,
) -> (returned: Result<SubCall, DepositError>)
    ensures
        accounts@.len() < RESERVED_ACCOUNTS ==> returned == Err::<SubCall, DepositError>(
            DepositError::InsufficientAccounts,
        ),
        accounts@.len() >= RESERVED_ACCOUNTS ==> (returned matches Ok(call) && call@ == sub_call_to(
            Step::RefreshObligation,
            *kamino_program_id,
            accounts@,
            data@,
        )),
{
    build_step(Step::RefreshObligation, kamino_program_id, accounts, data)
}

/// Builds the `deposit_reserve_liquidity_and_obligation_collateral` sub-call
/// from the flat account list.
pub fn deposit_reserve_liquidity_and_obligation_collateral_instruction(
    kamino_program_id: &Address,
    accounts: &[Address],
    data: Vec<u8>,
) -> (returned: Result<SubCall, DepositError>)
    ensures
        accounts@.len() < RESERVED_ACCOUNTS ==> returned == Err::<SubCall, DepositError>(
            DepositError::InsufficientAccounts,
        ),
        accounts@.len() >= RESERVED_ACCOUNTS ==> (returned matches Ok(call) && call@ == sub_call_to(
            Step::DepositReserveLiquidityAndObligationCollateral,
            *kamino_program_id,
            accounts@,
            data@,
        )),
{
    build_step(
        Step::DepositReserveLiquidityAndObligationCollateral,
        kamino_program_id,
        accounts,
        data,
    )
}

/// The farms refresh that runs before the deposit, or the one that runs
/// after it.
pub open spec fn farms_refresh(after_deposit: bool) -> Step {
    if after_deposit {
        Step::RefreshObligationFarmsAfterDeposit
    } else {
        Step::RefreshObligationFarmsBeforeDeposit
    }
}

/// Builds a `refresh_obligation_farms_for_reserve` sub-call from the flat
/// account list: the one that precedes the deposit, or with `after_deposit`
/// the one that follows it. The two differ in their windows only.
pub fn refresh_obligation_farms_for_reserve_instruction(
    farms_program_id: &Address,
    accounts: &[Address],
    data: Vec<u8>,
    after_deposit: bool,
) -> (returned: Result<SubCall, DepositError>)
    ensures
        accounts@.len() < RESERVED_ACCOUNTS ==> returned == Err::<SubCall, DepositError>(
            DepositError::InsufficientAccounts,
        ),
        accounts@.len() >= RESERVED_ACCOUNTS ==> (returned matches Ok(call) && call@ == sub_call_to(
            farms_refresh(after_deposit),
            *farms_program_id,
            accounts@,
            data@,
        )),
{
    let step = if after_deposit {
        Step::RefreshObligationFarmsAfterDeposit
    } else {
        Step::RefreshObligationFarmsBeforeDeposit
    };
    build_step(step, farms_program_id, accounts, data)
}

/// Builds the sub-call of `step` for a deposit against the programs
/// `lending` and `farms`, from the flat list of account addresses and the
/// list of payloads.
///
/// Fails with `InsufficientAccounts` where the account list is shorter than
/// the reserved positions and otherwise with `MissingPayload` where there
/// are fewer payloads than sub-calls. In every other case the sub-call goes
/// to the program its operation is addressed to, its slots hold the step's
/// window of the account list under the flags of the operation, and its
/// payload is the caller's payload for the step, byte for byte.
pub fn plan_sub_call(
    step: Step,
    lending: &Address,
    farms: &Address,
    addresses: &[Address],
    payloads: &Vec<Vec<u8>>,
) -> (planned: Result<SubCall, DepositError>)
    ensures
        addresses@.len() < RESERVED_ACCOUNTS ==> planned == Err::<SubCall, DepositError>(
            DepositError::InsufficientAccounts,
        ),
        addresses@.len() >= RESERVED_ACCOUNTS && payloads@.len() < STEP_COUNT ==> planned == Err::<
            SubCall,
            DepositError,
        >(DepositError::MissingPayload),
        addresses@.len() >= RESERVED_ACCOUNTS && payloads@.len() >= STEP_COUNT ==> (planned matches Ok(
            call,
        ) && call@ == expected_sub_call(
            step,
            *lending,
            *farms,
            addresses@,
            payloads@[step.spec_index()]@,
        )),
{
    if addresses.len() < RESERVED_ACCOUNTS {
        return Err(DepositError::InsufficientAccounts);
    }
    if payloads.len() < STEP_COUNT {
        return Err(DepositError::MissingPayload);
    }
    let data = payloads[step.index()].clone();
    match step {
        Step::Initiate => initiate_ixns(lending, addresses, data),
        Step::InitObligation => init_obligation_instruction(lending, addresses, data),
        Step::InitObligationFarmsForReserve => init_obligation_farms_for_reserve_instruction(
            farms,
            addresses,
            data,
        ),
        Step::RefreshReserve => refresh_reserve_instruction(lending, addresses, data),
        Step::RefreshObligation => refresh_obligation_instruction(lending, addresses, data),
        Step::RefreshObligationFarmsBeforeDeposit => {
            refresh_obligation_farms_for_reserve_instruction(farms, addresses, data, false)
        },
        Step::DepositReserveLiquidityAndObligationCollateral => {
            deposit_reserve_liquidity_and_obligation_collateral_instruction(lending, addresses, data)
        },
        Step::RefreshObligationFarmsAfterDeposit => {
            refresh_obligation_farms_for_reserve_instruction(farms, addresses, data, true)
        },
    }
}

/// `outcome` is an answer of `invoke` to the sub-call at `position` of the
/// deposit, handed over with the handles of the sub-call's window.
pub open spec fn sub_call_answered<'info, F: Fn(&SubCall, &[AccountInfo<'info>]) -> Result<
    (),
    ProgramError,
>>(
    invoke: F,
    lending: Address,
    farms: Address,
    addresses: Seq<Address>,
    accounts: Seq<AccountInfo<'info>>,
    payloads: Seq<Vec<u8>>,
    position: int,
    outcome: Result<(), ProgramError>,
) -> bool {
    let step = Step::at(position);
    answered(
        invoke,
        expected_sub_call(step, lending, farms, addresses, payloads[position]@),
        accounts.subrange(step.spec_offset(), step.spec_end()),
        outcome,
    )
}

/// The deposit ended in `result` because the downstream programs answered
/// `outcomes`: every sub-call that the sequencing rule invokes under these
/// outcomes was handed to `invoke` as the manifest describes it and was
/// answered with its outcome, and `result` is what the rule makes of them.
pub open spec fn deposit_explained<'info, F: Fn(&SubCall, &[AccountInfo<'info>]) -> Result<
    (),
    ProgramError,
>>(
    invoke: F,
    lending: Address,
    farms: Address,
    addresses: Seq<Address>,
    accounts: Seq<AccountInfo<'info>>,
    payloads: Seq<Vec<u8>>,
    outcomes: Seq<Result<(), ProgramError>>,
    result: Result<(), DepositError>,
) -> bool {
    &&& outcomes.len() == STEP_COUNT
    &&& result == run(STEP_COUNT, outcomes).1
    &&& forall|position: int|
        0 <= position < run(STEP_COUNT, outcomes).0.len() ==> sub_call_answered(
            invoke,
            lending,
            farms,
            addresses,
            accounts,
            payloads,
            position,
            #[trigger] outcomes[position],
        )
}

/// Runs a deposit against the programs `lending` and `farms`, handing each
/// sub-call to `invoke`.
///
/// `addresses` and `accounts` are the flat account list, as addresses and as
/// the host's handles. A list shorter than the reserved positions fails with
/// `InsufficientAccounts`, fewer payloads than sub-calls with
/// `MissingPayload`. Otherwise the sub-calls are invoked one after the other
/// from the first on, each with its window of the list and the caller's
/// payload, until one fails or all are done: the result is that of the
/// sequencing rule under the outcomes that `invoke` returned.
pub fn dispatch_sub_calls<'info, F: Fn(&SubCall, &[AccountInfo<'info>]) -> Result<(), ProgramError>>(
    lending: &Address,
    farms: &Address,
    addresses: &[Address],
    accounts: &[AccountInfo<'info>],
    payloads: &Vec<Vec<u8>>,
    invoke: F,
) -> (result: Result<(), DepositError>)
    requires
        forall|call: &SubCall, window: &[AccountInfo<'info>]| call_requires(invoke, (call, window)),
    ensures
        addresses@.len() < RESERVED_ACCOUNTS || accounts@.len() < RESERVED_ACCOUNTS ==> result
            == Err::<(), DepositError>(DepositError::InsufficientAccounts),
        addresses@.len() >= RESERVED_ACCOUNTS && accounts@.len() >= RESERVED_ACCOUNTS
            && payloads@.len() < STEP_COUNT ==> result == Err::<(), DepositError>(
            DepositError::MissingPayload,
        ),
        addresses@.len() >= RESERVED_ACCOUNTS && accounts@.len() >= RESERVED_ACCOUNTS
            && payloads@.len() >= STEP_COUNT ==> exists|outcomes: Seq<Result<(), ProgramError>>|
            deposit_explained(
                invoke,
                *lending,
                *farms,
                addresses@,
                accounts@,
                payloads@,
                outcomes,
                result,
            ),
{
    let mut position: usize = 0;
    let ghost mut outcomes: Seq<Result<(), ProgramError>> = Seq::empty();
    loop
        invariant
            position < STEP_COUNT,
            outcomes.len() == position,
            forall|call: &SubCall, window: &[AccountInfo<'info>]|
                call_requires(invoke, (call, window)),
            forall|k: int| 0 <= k < position ==> outcomes[k] is Ok,
            forall|k: int|
                0 <= k < position ==> sub_call_answered(
                    invoke,
                    *lending,
                    *farms,
                    addresses@,
                    accounts@,
                    payloads@,
                    k,
                    #[trigger] outcomes[k],
                ),
        decreases STEP_COUNT - position,
    {
        let step = Step::nth(position);
        let window = match select_window(accounts, step) {
            Ok(window) => window,
            Err(error) => return Err(error),
        };
        let call = match plan_sub_call(step, lending, farms, addresses, payloads) {
            Ok(call) => call,
            Err(error) => return Err(error),
        };
        let outcome = invoke(&call, window);
        let ghost answer = outcome;
        let decision = advance(STEP_COUNT, position, outcome);
        proof {
            assert(sub_call_answered(
                invoke,
                *lending,
                *farms,
                addresses@,
                accounts@,
                payloads@,
                position as int,
                answer,
            ));
            outcomes = outcomes.push(answer);
        }
        match decision {
            Decision::Proceed { next } => {
                position = next;
            },
            Decision::Complete => {
                proof {
                    lemma_run_ends_at(STEP_COUNT, outcomes, position as int);
                    assert(deposit_explained(
                        invoke,
                        *lending,
                        *farms,
                        addresses@,
                        accounts@,
                        payloads@,
                        outcomes,
                        Ok::<(), DepositError>(()),
                    ));
                }
                return Ok(());
            },
            Decision::Abort { failure } => {
                proof {
                    let full = outcomes + Seq::new(
                        (STEP_COUNT - position - 1) as nat,
                        |k: int| Ok::<(), ProgramError>(()),
                    );
                    lemma_run_ends_at(STEP_COUNT, full, position as int);
                    assert(deposit_explained(
                        invoke,
                        *lending,
                        *farms,
                        addresses@,
                        accounts@,
                        payloads@,
                        full,
                        Err::<(), DepositError>(failure),
                    ));
                }
                return Err(failure);
            },
        }
    }
}

/// The accounts that the entry point of the payload-driven deposit names:
/// the two downstream programs.
pub struct ExecuteKaminoOperations<'info> {
    /// The lending program.
    pub kamino_program: AccountInfo<'info>,
    /// The farms program.
    pub farms_program: AccountInfo<'info>,
}

/// The payload-driven deposit: invokes the sub-calls in order through the
/// host, the sub-call at position `i` with payload `data[i]` and its window
/// of `remaining_accounts`.
///
/// Fails with `InsufficientAccounts` where `remaining_accounts` is shorter
/// than the reserved positions and otherwise with `MissingPayload` where
/// `data` holds fewer payloads than there are sub-calls. In every other case
/// the result is that of the sequencing rule under the outcomes of the
/// sub-calls: success where all succeed, else the first failure with its
/// position and the downstream error.
pub fn execute_kamino_operations<'info>(
    accounts: &ExecuteKaminoOperations<'info>,
    remaining_accounts: &[AccountInfo<'info>],
    data: Vec<Vec<u8>>,
) -> (result: Result<(), DepositError>)
    ensures
        remaining_accounts@.len() < RESERVED_ACCOUNTS ==> result == Err::<(), DepositError>(
            DepositError::InsufficientAccounts,
        ),
        remaining_accounts@.len() >= RESERVED_ACCOUNTS && data@.len() < STEP_COUNT ==> result
            == Err::<(), DepositError>(DepositError::MissingPayload),
        remaining_accounts@.len() >= RESERVED_ACCOUNTS && data@.len() >= STEP_COUNT ==> exists|
            outcomes: Seq<Result<(), ProgramError>>,
        |
            outcomes.len() == STEP_COUNT && result == run(STEP_COUNT, outcomes).1,
{
    let lending = account_address(&accounts.kamino_program);
    let farms = account_address(&accounts.farms_program);
    let addresses = account_addresses(remaining_accounts);
    dispatch_sub_calls(
        &lending,
        &farms,
        addresses.as_slice(),
        remaining_accounts,
        &data,
        invoke_sub_call,
    )
}

} // verus!
