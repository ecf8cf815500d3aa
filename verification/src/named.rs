//! The named-account deposit: the caller presents a fixed bundle of named
//! accounts and a deposit amount, and the orchestrator selects the accounts
//! of every sub-call by name and builds its payload itself.

use crate::address::Address;
use crate::descriptor::{build_sub_call, paired, SubCall, SubCallView};
use crate::error::DepositError;
use crate::host::{account_addresses, invoke_sub_call};
use crate::layout::{read_only, writable, writable_signer, Operation, SlotFlags, Target};
use crate::sequencer::{advance, answered, lemma_run_ends_at, run, Decision};
use anchor_lang::solana_program::account_info::AccountInfo;
use anchor_lang::solana_program::program_error::ProgramError;
use vstd::prelude::*;

verus! {

/// The number of sub-calls of a named-account deposit.
pub const NAMED_STEP_COUNT: usize = 6;

/// The number of accounts in the bundle.
pub const BUNDLE_ACCOUNTS: usize = 31;

/// The accounts of the bundle. The bundle arrives as a list that holds them
/// in this order.
#[derive(Clone, Copy, Debug, PartialEq, Eq, Structural)]
pub enum AccountName {
    ObligationOwner,
    FeePayer,
    Obligation,
    LendingMarket,
    LendingMarketAuthority,
    Reserve,
    ReserveFarmState,
    ObligationFarm,
    ReserveLiquidityMint,
    ReserveLiquiditySupply,
    ReserveCollateralMint,
    ReserveDestinationDepositCollateral,
    UserSourceLiquidity,
    PlaceholderUserDestinationCollateral,
    CollateralTokenProgram,
    LiquidityTokenProgram,
    InstructionSysvar,
    PythOracle,
    SwitchboardPriceOracle,
    SwitchboardTwapOracle,
    ScopePrices,
    OwnerUserMetadata,
    Rent,
    SystemProgram,
    Payer,
    Owner,
    Crank,
    ObligationFarmUserState,
    FarmsProgram,
    KaminoProgram,
    KaminoFarm,
}

impl AccountName {
    /// Where the bundle holds the account.
    pub open spec fn spec_position(self) -> int {
        match self {
            AccountName::ObligationOwner => 0,
            AccountName::FeePayer => 1,
            AccountName::Obligation => 2,
            AccountName::LendingMarket => 3,
            AccountName::LendingMarketAuthority => 4,
            AccountName::Reserve => 5,
            AccountName::ReserveFarmState => 6,
            AccountName::ObligationFarm => 7,
            AccountName::ReserveLiquidityMint => 8,
            AccountName::ReserveLiquiditySupply => 9,
            AccountName::ReserveCollateralMint => 10,
            AccountName::ReserveDestinationDepositCollateral => 11,
            AccountName::UserSourceLiquidity => 12,
            AccountName::PlaceholderUserDestinationCollateral => 13,
            AccountName::CollateralTokenProgram => 14,
            AccountName::LiquidityTokenProgram => 15,
            AccountName::InstructionSysvar => 16,
            AccountName::PythOracle => 17,
            AccountName::SwitchboardPriceOracle => 18,
            AccountName::SwitchboardTwapOracle => 19,
            AccountName::ScopePrices => 20,
            AccountName::OwnerUserMetadata => 21,
            AccountName::Rent => 22,
            AccountName::SystemProgram => 23,
            AccountName::Payer => 24,
            AccountName::Owner => 25,
            AccountName::Crank => 26,
            AccountName::ObligationFarmUserState => 27,
            AccountName::FarmsProgram => 28,
            AccountName::KaminoProgram => 29,
            AccountName::KaminoFarm => 30,
        }
    }

    /// Where the bundle holds the account.
    pub fn position(self) -> (position: usize)
        ensures
            position == self.spec_position(),
            position < BUNDLE_ACCOUNTS,
    {
        match self {
            AccountName::ObligationOwner => 0,
            AccountName::FeePayer => 1,
            AccountName::Obligation => 2,
            AccountName::LendingMarket => 3,
            AccountName::LendingMarketAuthority => 4,
            AccountName::Reserve => 5,
            AccountName::ReserveFarmState => 6,
            AccountName::ObligationFarm => 7,
            AccountName::ReserveLiquidityMint => 8,
            AccountName::ReserveLiquiditySupply => 9,
            AccountName::ReserveCollateralMint => 10,
            AccountName::ReserveDestinationDepositCollateral => 11,
            AccountName::UserSourceLiquidity => 12,
            AccountName::PlaceholderUserDestinationCollateral => 13,
            AccountName::CollateralTokenProgram => 14,
            AccountName::LiquidityTokenProgram => 15,
            AccountName::InstructionSysvar => 16,
            AccountName::PythOracle => 17,
            AccountName::SwitchboardPriceOracle => 18,
            AccountName::SwitchboardTwapOracle => 19,
            AccountName::ScopePrices => 20,
            AccountName::OwnerUserMetadata => 21,
            AccountName::Rent => 22,
            AccountName::SystemProgram => 23,
            AccountName::Payer => 24,
            AccountName::Owner => 25,
            AccountName::Crank => 26,
            AccountName::ObligationFarmUserState => 27,
            AccountName::FarmsProgram => 28,
            AccountName::KaminoProgram => 29,
            AccountName::KaminoFarm => 30,
        }
    }
}

/// Different names stand at different positions of the bundle.
pub proof fn lemma_positions_distinct(a: AccountName, b: AccountName)
    requires
        a.spec_position() == b.spec_position(),
    ensures
        a == b,
{
}

/// The sub-calls of a named-account deposit, in the order they are invoked.
#[derive(Clone, Copy, Debug, PartialEq, Eq, Structural)]
pub enum NamedStep {
    InitObligation,
    InitObligationFarmsForReserve,
    RefreshReserve,
    RefreshObligation,
    DepositReserveLiquidityAndObligationCollateral,
    RefreshObligationFarmsForReserve,
}

impl NamedStep {
    /// The position of the sub-call in the sequence.
    pub open spec fn spec_index(self) -> int {
        match self {
            NamedStep::InitObligation => 0,
            NamedStep::InitObligationFarmsForReserve => 1,
            NamedStep::RefreshReserve => 2,
            NamedStep::RefreshObligation => 3,
            NamedStep::DepositReserveLiquidityAndObligationCollateral => 4,
            NamedStep::RefreshObligationFarmsForReserve => 5,
        }
    }

    /// The sub-call at a position of the sequence.
    pub open spec fn at(index: int) -> NamedStep
        recommends
            0 <= index < NAMED_STEP_COUNT,
    {
        if index <= 0 {
            NamedStep::InitObligation
        } else if index == 1 {
            NamedStep::InitObligationFarmsForReserve
        } else if index == 2 {
            NamedStep::RefreshReserve
        } else if index == 3 {
            NamedStep::RefreshObligation
        } else if index == 4 {
            NamedStep::DepositReserveLiquidityAndObligationCollateral
        } else {
            NamedStep::RefreshObligationFarmsForReserve
        }
    }

    /// The downstream operation the sub-call performs.
    pub open spec fn spec_operation(self) -> Operation {
        match self {
            NamedStep::InitObligation => Operation::InitObligation,
            NamedStep::InitObligationFarmsForReserve => Operation::InitObligationFarmsForReserve,
            NamedStep::RefreshReserve => Operation::RefreshReserve,
            NamedStep::RefreshObligation => Operation::RefreshObligation,
            NamedStep::DepositReserveLiquidityAndObligationCollateral => {
                Operation::DepositReserveLiquidityAndObligationCollateral
            },
            NamedStep::RefreshObligationFarmsForReserve => {
                Operation::RefreshObligationFarmsForReserve
            },
        }
    }

    /// The named accounts that the sub-call takes, in slot order.
    pub open spec fn account_row(self) -> Seq<AccountName> {
        match self {
            NamedStep::InitObligation => seq![
                AccountName::ObligationOwner,
                AccountName::FeePayer,
                AccountName::Obligation,
                AccountName::LendingMarket,
                AccountName::SystemProgram,
                AccountName::SystemProgram,
                AccountName::OwnerUserMetadata,
                AccountName::Rent,
                AccountName::SystemProgram
            ],
            NamedStep::InitObligationFarmsForReserve => seq![
                AccountName::Payer,
                AccountName::Owner,
                AccountName::Obligation,
                AccountName::LendingMarketAuthority,
                AccountName::Reserve,
                AccountName::ReserveFarmState,
                AccountName::ObligationFarm,
                AccountName::LendingMarket,
                AccountName::FarmsProgram,
                AccountName::Rent,
                AccountName::SystemProgram
            ],
            NamedStep::RefreshReserve => seq![
                AccountName::Reserve,
                AccountName::LendingMarket,
                AccountName::PythOracle,
                AccountName::SwitchboardPriceOracle,
                AccountName::SwitchboardTwapOracle,
                AccountName::ScopePrices
            ],
            NamedStep::RefreshObligation => seq![AccountName::LendingMarket, AccountName::Obligation],
            NamedStep::DepositReserveLiquidityAndObligationCollateral => seq![
                AccountName::Owner,
                AccountName::Obligation,
                AccountName::LendingMarket,
                AccountName::LendingMarketAuthority,
                AccountName::Reserve,
                AccountName::ReserveLiquidityMint,
                AccountName::ReserveLiquiditySupply,
                AccountName::ReserveCollateralMint,
                AccountName::ReserveDestinationDepositCollateral,
                AccountName::UserSourceLiquidity,
                AccountName::PlaceholderUserDestinationCollateral,
                AccountName::CollateralTokenProgram,
                AccountName::LiquidityTokenProgram,
                AccountName::InstructionSysvar
            ],
            NamedStep::RefreshObligationFarmsForReserve => seq![
                AccountName::Crank,
                AccountName::Obligation,
                AccountName::LendingMarketAuthority,
                AccountName::Reserve,
                AccountName::ReserveFarmState,
                AccountName::ObligationFarmUserState,
                AccountName::LendingMarket,
                AccountName::FarmsProgram,
                AccountName::Rent,
                AccountName::SystemProgram
            ],
        }
    }

    /// The flags of every slot of the sub-call, in slot order. They are those
    /// of the operation, but for `init_obligation`: there every slot is
    /// writable except the one of `rent` and the trailing one of
    /// `system_program`.
    pub open spec fn flag_row(self) -> Seq<SlotFlags> {
        match self {
            NamedStep::InitObligation => seq![
                writable_signer(),
                writable_signer(),
                writable(),
                writable(),
                writable(),
                writable(),
                writable(),
                read_only(),
                read_only()
            ],
            _ => self.spec_operation().flag_row(),
        }
    }

    /// The payload of the sub-call: a fixed tag, followed for the deposit by
    /// the lowest byte of `amount`.
    pub open spec fn spec_payload(self, amount: u64) -> Seq<u8> {
        match self {
            NamedStep::InitObligation => seq![0u8, 0u8],
            NamedStep::InitObligationFarmsForReserve => seq![0u8, 1u8],
            NamedStep::RefreshReserve => seq![1u8],
            NamedStep::RefreshObligation => seq![2u8],
            NamedStep::RefreshObligationFarmsForReserve => seq![3u8],
            NamedStep::DepositReserveLiquidityAndObligationCollateral => seq![
                4u8,
                (amount % 256) as u8
            ],
        }
    }

    /// The position of the sub-call in the sequence.
    pub fn index(self) -> (index: usize)
        ensures
            index == self.spec_index(),
            index < NAMED_STEP_COUNT,
    {
        match self {
            NamedStep::InitObligation => 0,
            NamedStep::InitObligationFarmsForReserve => 1,
            NamedStep::RefreshReserve => 2,
            NamedStep::RefreshObligation => 3,
            NamedStep::DepositReserveLiquidityAndObligationCollateral => 4,
            NamedStep::RefreshObligationFarmsForReserve => 5,
        }
    }

    /// The sub-call at a position of the sequence, or `None` past its end.
    pub fn from_index(index: usize) -> (step: Option<NamedStep>)
        ensures
            index < NAMED_STEP_COUNT ==> step == Some(NamedStep::at(index as int)),
            index >= NAMED_STEP_COUNT ==> step is None,
    {
        if index < NAMED_STEP_COUNT {
            Some(NamedStep::nth(index))
        } else {
            None
        }
    }

    /// The sub-call at a position within the sequence.
    pub(crate) fn nth(index: usize) -> (step: NamedStep)
        requires
            index < NAMED_STEP_COUNT,
        ensures
            step == NamedStep::at(index as int),
            step.spec_index() == index,
    {
        match index {
            0 => NamedStep::InitObligation,
            1 => NamedStep::InitObligationFarmsForReserve,
            2 => NamedStep::RefreshReserve,
            3 => NamedStep::RefreshObligation,
            4 => NamedStep::DepositReserveLiquidityAndObligationCollateral,
            _ => NamedStep::RefreshObligationFarmsForReserve,
        }
    }

    /// The downstream operation the sub-call performs.
    pub fn operation(self) -> (operation: Operation)
        ensures
            operation == self.spec_operation(),
    {
        match self {
            NamedStep::InitObligation => Operation::InitObligation,
            NamedStep::InitObligationFarmsForReserve => Operation::InitObligationFarmsForReserve,
            NamedStep::RefreshReserve => Operation::RefreshReserve,
            NamedStep::RefreshObligation => Operation::RefreshObligation,
            NamedStep::DepositReserveLiquidityAndObligationCollateral => {
                Operation::DepositReserveLiquidityAndObligationCollateral
            },
            NamedStep::RefreshObligationFarmsForReserve => {
                Operation::RefreshObligationFarmsForReserve
            },
        }
    }

    /// The named accounts that the sub-call takes, in slot order.
    pub fn accounts(self) -> (row: Vec<AccountName>)
        ensures
            row@ == self.account_row(),
    {
        let row = match self {
            NamedStep::InitObligation => vec![
                AccountName::ObligationOwner,
                AccountName::FeePayer,
                AccountName::Obligation,
                AccountName::LendingMarket,
                AccountName::SystemProgram,
                AccountName::SystemProgram,
                AccountName::OwnerUserMetadata,
                AccountName::Rent,
                AccountName::SystemProgram
            ],
            NamedStep::InitObligationFarmsForReserve => vec![
                AccountName::Payer,
                AccountName::Owner,
                AccountName::Obligation,
                AccountName::LendingMarketAuthority,
                AccountName::Reserve,
                AccountName::ReserveFarmState,
                AccountName::ObligationFarm,
                AccountName::LendingMarket,
                AccountName::FarmsProgram,
                AccountName::Rent,
                AccountName::SystemProgram
            ],
            NamedStep::RefreshReserve => vec![
                AccountName::Reserve,
                AccountName::LendingMarket,
                AccountName::PythOracle,
                AccountName::SwitchboardPriceOracle,
                AccountName::SwitchboardTwapOracle,
                AccountName::ScopePrices
            ],
            NamedStep::RefreshObligation => vec![AccountName::LendingMarket, AccountName::Obligation],
            NamedStep::DepositReserveLiquidityAndObligationCollateral => vec![
                AccountName::Owner,
                AccountName::Obligation,
                AccountName::LendingMarket,
                AccountName::LendingMarketAuthority,
                AccountName::Reserve,
                AccountName::ReserveLiquidityMint,
                AccountName::ReserveLiquiditySupply,
                AccountName::ReserveCollateralMint,
                AccountName::ReserveDestinationDepositCollateral,
                AccountName::UserSourceLiquidity,
                AccountName::PlaceholderUserDestinationCollateral,
                AccountName::CollateralTokenProgram,
                AccountName::LiquidityTokenProgram,
                AccountName::InstructionSysvar
            ],
            NamedStep::RefreshObligationFarmsForReserve => vec![
                AccountName::Crank,
                AccountName::Obligation,
                AccountName::LendingMarketAuthority,
                AccountName::Reserve,
                AccountName::ReserveFarmState,
                AccountName::ObligationFarmUserState,
                AccountName::LendingMarket,
                AccountName::FarmsProgram,
                AccountName::Rent,
                AccountName::SystemProgram
            ],
        };
        assert(row@ =~= self.account_row());
        row
    }

    /// The flags of every slot of the sub-call, in slot order.
    pub fn flags(self) -> (row: Vec<SlotFlags>)
        ensures
            row@ == self.flag_row(),
    {
        match self {
            NamedStep::InitObligation => {
                let ws = SlotFlags { is_writable: true, is_signer: true };
                let w = SlotFlags { is_writable: true, is_signer: false };
                let r = SlotFlags { is_writable: false, is_signer: false };
                let row = vec![ws, ws, w, w, w, w, w, r, r];
                assert(row@ =~= self.flag_row());
                row
            },
            _ => self.operation().flags(),
        }
    }

    /// The payload of the sub-call.
    pub fn payload(self, amount: u64) -> (payload: Vec<u8>)
        ensures
            payload@ == self.spec_payload(amount),
    {
        let payload = match self {
            NamedStep::InitObligation => vec![0u8, 0u8],
            NamedStep::InitObligationFarmsForReserve => vec![0u8, 1u8],
            NamedStep::RefreshReserve => vec![1u8],
            NamedStep::RefreshObligation => vec![2u8],
            NamedStep::RefreshObligationFarmsForReserve => vec![3u8],
            NamedStep::DepositReserveLiquidityAndObligationCollateral => vec![
                4u8,
                (amount % 256) as u8
            ],
        };
        assert(payload@ =~= self.spec_payload(amount));
        payload
    }
}

/// Position and sub-call determine each other.
pub proof fn lemma_named_index_round_trip(step: NamedStep, index: int)
    ensures
        0 <= step.spec_index() < NAMED_STEP_COUNT,
        NamedStep::at(step.spec_index()) == step,
        0 <= index < NAMED_STEP_COUNT ==> NamedStep::at(index).spec_index() == index,
{
}

/// Every sub-call names one account for each slot of its operation, and one
/// flag pair; the flags differ from those of the operation in nothing but
/// the writable flag.
pub proof fn lemma_rows_fit(step: NamedStep, slot: int)
    ensures
        step.account_row().len() == step.spec_operation().spec_slot_count(),
        step.flag_row().len() == step.spec_operation().spec_slot_count(),
        0 <= slot < step.flag_row().len() ==> step.flag_row()[slot].is_signer
            == step.spec_operation().flag_row()[slot].is_signer,
{
}

/// In `init_obligation` a slot is writable exactly when it holds neither
/// `rent` nor, as the last slot, `system_program`; the signers are those of
/// the operation.
pub proof fn lemma_init_obligation_flags(slot: int)
    requires
        0 <= slot < NamedStep::InitObligation.flag_row().len(),
    ensures
        NamedStep::InitObligation.flag_row()[slot].is_writable <==> (
        NamedStep::InitObligation.account_row()[slot] != AccountName::Rent && slot + 1
            != NamedStep::InitObligation.account_row().len()),
        NamedStep::InitObligation.account_row()[NamedStep::InitObligation.account_row().len() - 1]
            == AccountName::SystemProgram,
        NamedStep::InitObligation.flag_row()[slot].is_signer
            == Operation::InitObligation.flag_row()[slot].is_signer,
{
}

/// What a row of names selects out of the bundle, in slot order.
pub open spec fn selected<T>(bundle: Seq<T>, row: Seq<AccountName>) -> Seq<T>
    recommends
        bundle.len() >= BUNDLE_ACCOUNTS,
{
    Seq::new(row.len(), |slot: int| bundle[row[slot].spec_position()])
}

/// The sub-call of `step` in a named-account deposit of `amount`: it goes to
/// the program its operation is addressed to, `kamino_program` or
/// `farms_program` of the bundle; its slots hold the accounts that the step
/// names, under the step's flags; its payload is the step's tag.
pub open spec fn expected_named_sub_call(
    step: NamedStep,
    addresses: Seq<Address>,
    amount: u64,
) -> SubCallView
    recommends
        addresses.len() >= BUNDLE_ACCOUNTS,
{
    SubCallView {
        program_id: match step.spec_operation().spec_target() {
            Target::Lending => addresses[AccountName::KaminoProgram.spec_position()],
            Target::Farms => addresses[AccountName::FarmsProgram.spec_position()],
        },
        accounts: paired(selected(addresses, step.account_row()), step.flag_row()),
        data: step.spec_payload(amount),
    }
}

fn select_addresses(bundle: &[Address], row: &Vec<AccountName>) -> (chosen: Vec<Address>)
    requires
        bundle@.len() >= BUNDLE_ACCOUNTS,
    ensures
        chosen@ == selected(bundle@, row@),
{
    let mut chosen: Vec<Address> = Vec::with_capacity(row.len());
    let mut slot: usize = 0;
    while slot < row.len()
        invariant
            slot <= row@.len(),
            bundle@.len() >= BUNDLE_ACCOUNTS,
            chosen@ == selected(bundle@, row@).take(slot as int),
        decreases row@.len() - slot,
    {
        chosen.push(bundle[row[slot].position()]);
        slot += 1;
    }
    assert(chosen@ =~= selected(bundle@, row@));
    chosen
}

fn select_handles<'info>(bundle: &[AccountInfo<'info>], row: &Vec<AccountName>) -> (chosen: Vec<
    AccountInfo<'info>,
>)
    requires
        bundle@.len() >= BUNDLE_ACCOUNTS,
    ensures
        chosen@ == selected(bundle@, row@),
{
    let mut chosen: Vec<AccountInfo<'info>> = Vec::with_capacity(row.len());
    let mut slot: usize = 0;
    while slot < row.len()
        invariant
            slot <= row@.len(),
            bundle@.len() >= BUNDLE_ACCOUNTS,
            chosen@ == selected(bundle@, row@).take(slot as int),
        decreases row@.len() - slot,
    {
        chosen.push(bundle[row[slot].position()].clone());
        slot += 1;
    }
    assert(chosen@ =~= selected(bundle@, row@));
    chosen
}

/// Builds the sub-call of `step` for a named-account deposit of `amount`
/// from the addresses of the bundle.
///
/// Fails with `InsufficientAccounts` exactly when the bundle is short of an
/// account. Otherwise the sub-call goes to the program its operation is
/// addressed to, holds the accounts that the step names under the step's
/// flags, and carries the step's tag as payload.
pub fn named_sub_call(step: NamedStep, addresses: &[Address], amount: u64) -> (planned: Result<
    SubCall,
    DepositError,
>)
    ensures
        addresses@.len() < BUNDLE_ACCOUNTS ==> planned == Err::<SubCall, DepositError>(
            DepositError::InsufficientAccounts,
        ),
        addresses@.len() >= BUNDLE_ACCOUNTS ==> (planned matches Ok(call) && call@
            == expected_named_sub_call(step, addresses@, amount)),
{
    if addresses.len() < BUNDLE_ACCOUNTS {
        return Err(DepositError::InsufficientAccounts);
    }
    let program_id = match step.operation().target() {
        Target::Lending => addresses[AccountName::KaminoProgram.position()],
        Target::Farms => addresses[AccountName::FarmsProgram.position()],
    };
    let row = step.accounts();
    let chosen = select_addresses(addresses, &row);
    let flags = step.flags();
    proof {
        lemma_rows_fit(step, 0);
    }
    Ok(build_sub_call(program_id, chosen.as_slice(), flags.as_slice(), step.payload(amount)))
}

/// `outcome` is an answer of `invoke` to the sub-call at `position` of the
/// named-account deposit, handed over with the handles of the accounts that
/// the sub-call names.
pub open spec fn named_sub_call_answered<'info, F: Fn(&SubCall, &[AccountInfo<'info>]) -> Result<
    (),
    ProgramError,
>>(
    invoke: F,
    addresses: Seq<Address>,
    accounts: Seq<AccountInfo<'info>>,
    amount: u64,
    position: int,
    outcome: Result<(), ProgramError>,
) -> bool {
    let step = NamedStep::at(position);
    answered(
        invoke,
        expected_named_sub_call(step, addresses, amount),
        selected(accounts, step.account_row()),
        outcome,
    )
}

/// The named-account deposit ended in `result` because the downstream
/// programs answered `outcomes`: every sub-call that the sequencing rule
/// invokes under these outcomes was handed to `invoke` as the manifest
/// describes it and was answered with its outcome, and `result` is what the
/// rule makes of them.
pub open spec fn named_deposit_explained<'info, F: Fn(&SubCall, &[AccountInfo<'info>]) -> Result<
    (),
    ProgramError,
>>(
    invoke: F,
    addresses: Seq<Address>,
    accounts: Seq<AccountInfo<'info>>,
    amount: u64,
    outcomes: Seq<Result<(), ProgramError>>,
    result: Result<(), DepositError>,
) -> bool {
    &&& outcomes.len() == NAMED_STEP_COUNT
    &&& result == run(NAMED_STEP_COUNT, outcomes).1
    &&& forall|position: int|
        0 <= position < run(NAMED_STEP_COUNT, outcomes).0.len() ==> named_sub_call_answered(
            invoke,
            addresses,
            accounts,
            amount,
            position,
            #[trigger] outcomes[position],
        )
}

/// Runs a named-account deposit of `amount`, handing each sub-call to
/// `invoke`.
///
/// `addresses` and `accounts` are the bundle, as addresses and as the host's
/// handles. A bundle that is short of an account fails with
/// `InsufficientAccounts`. Otherwise the sub-calls are invoked one after the
/// other from the first on, each with the accounts it names and its tag,
/// until one fails or all are done: the result is that of the sequencing
/// rule under the outcomes that `invoke` returned.
pub fn dispatch_named_sub_calls<'info, F: Fn(&SubCall, &[AccountInfo<'info>]) -> Result<
    (),
    ProgramError,
>>(addresses: &[Address], accounts: &[AccountInfo<'info>], amount: u64, invoke: F) -> (result:
    Result<(), DepositError>)
    requires
        forall|call: &SubCall, window: &[AccountInfo<'info>]| call_requires(invoke, (call, window)),
    ensures
        addresses@.len() < BUNDLE_ACCOUNTS || accounts@.len() < BUNDLE_ACCOUNTS ==> result == Err::<
            (),
            DepositError,
        >(DepositError::InsufficientAccounts),
        addresses@.len() >= BUNDLE_ACCOUNTS && accounts@.len() >= BUNDLE_ACCOUNTS ==> exists|
            outcomes: Seq<Result<(), ProgramError>>,
        | named_deposit_explained(invoke, addresses@, accounts@, amount, outcomes, result),
{
    if accounts.len() < BUNDLE_ACCOUNTS {
        return Err(DepositError::InsufficientAccounts);
    }
    let mut position: usize = 0;
    let ghost mut outcomes: Seq<Result<(), ProgramError>> = Seq::empty();
    loop
        invariant
            position < NAMED_STEP_COUNT,
            outcomes.len() == position,
            accounts@.len() >= BUNDLE_ACCOUNTS,
            forall|call: &SubCall, window: &[AccountInfo<'info>]|
                call_requires(invoke, (call, window)),
            forall|k: int| 0 <= k < position ==> outcomes[k] is Ok,
            forall|k: int|
                0 <= k < position ==> named_sub_call_answered(
                    invoke,
                    addresses@,
                    accounts@,
                    amount,
                    k,
                    #[trigger] outcomes[k],
                ),
        decreases NAMED_STEP_COUNT - position,
    {
        let step = NamedStep::nth(position);
        let call = match named_sub_call(step, addresses, amount) {
            Ok(call) => call,
            Err(error) => return Err(error),
        };
        let handles = select_handles(accounts, &step.accounts());
        let outcome = invoke(&call, handles.as_slice());
        let ghost answer = outcome;
        let decision = advance(NAMED_STEP_COUNT, position, outcome);
        proof {
            assert(named_sub_call_answered(
                invoke,
                addresses@,
                accounts@,
                amount,
                position as int,
                answer,
            ));
            outcomes = outcomes.push(answer);
        }
        match decision {
            Decision::Proceed { next } => {
                position = next;
            },
            Decision::Complete => {
                proof {
                    lemma_run_ends_at(NAMED_STEP_COUNT, outcomes, position as int);
                    assert(named_deposit_explained(
                        invoke,
                        addresses@,
                        accounts@,
                        amount,
                        outcomes,
                        Ok::<(), DepositError>(()),
                    ));
                }
                return Ok(());
            },
            Decision::Abort { failure } => {
                proof {
                    let full = outcomes + Seq::new(
                        (NAMED_STEP_COUNT - position - 1) as nat,
                        |k: int| Ok::<(), ProgramError>(()),
                    );
                    lemma_run_ends_at(NAMED_STEP_COUNT, full, position as int);
                    assert(named_deposit_explained(
                        invoke,
                        addresses@,
                        accounts@,
                        amount,
                        full,
                        Err::<(), DepositError>(failure),
                    ));
                }
                return Err(failure);
            },
        }
    }
}

/// The named-account deposit: invokes the six sub-calls in order through the
/// host, each with the accounts it names out of the bundle `accounts` and
/// with its tag as payload.
///
/// Fails with `InsufficientAccounts` exactly when the bundle is short of an
/// account. In every other case the result is that of the sequencing rule
/// under the outcomes of the sub-calls: success where all succeed, else the
/// first failure with its position and the downstream error.
pub fn execute_named_operations<'info>(accounts: &[AccountInfo<'info>], amount: u64) -> (result:
    Result<(), DepositError>)
    ensures
        accounts@.len() < BUNDLE_ACCOUNTS ==> result == Err::<(), DepositError>(
            DepositError::InsufficientAccounts,
        ),
        accounts@.len() >= BUNDLE_ACCOUNTS ==> exists|outcomes: Seq<Result<(), ProgramError>>|
            outcomes.len() == NAMED_STEP_COUNT && result == run(NAMED_STEP_COUNT, outcomes).1,
{
    let addresses = account_addresses(accounts);
    dispatch_named_sub_calls(addresses.as_slice(), accounts, amount, invoke_sub_call)
}

} // verus!
