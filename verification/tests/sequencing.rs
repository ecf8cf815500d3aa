use anchor_lang::solana_program::account_info::AccountInfo;
use anchor_lang::solana_program::program_error::ProgramError;
use anchor_lang::solana_program::pubkey::Pubkey;
use kamino_deposit::address::Address;
use kamino_deposit::descriptor::{SlotMeta, SubCall};
use kamino_deposit::error::DepositError;
use kamino_deposit::payload_driven::dispatch_sub_calls;
use kamino_deposit::sequencer::{advance, Decision};
use std::cell::RefCell;

/// What one invocation received: the sub-call and the addresses of the
/// account handles that came with it.
type Invocation = (SubCall, Vec<[u8; 32]>);

fn address(tag: u8) -> Address {
    Address::new([tag; 32])
}

fn lending() -> Address {
    address(200)
}

fn farms() -> Address {
    address(201)
}

fn keys(count: usize) -> Vec<Pubkey> {
    (0..count).map(|position| Pubkey::new_from_array([position as u8 + 1; 32])).collect()
}

fn addresses(keys: &[Pubkey]) -> Vec<Address> {
    keys.iter().map(|key| Address::new(key.to_bytes())).collect()
}

fn handles<'a>(
    keys: &'a [Pubkey],
    lamports: &'a mut [u64],
    data: &'a mut [Vec<u8>],
    owner: &'a Pubkey,
) -> Vec<AccountInfo<'a>> {
    keys.iter()
        .zip(lamports.iter_mut())
        .zip(data.iter_mut())
        .map(|((key, lamports), data)| {
            AccountInfo::new(key, false, false, lamports, data.as_mut_slice(), owner, false, 0)
        })
        .collect()
}

fn payload_list(count: usize) -> Vec<Vec<u8>> {
    (0..count).map(|position| vec![0xA0 + position as u8; position + 1]).collect()
}

fn slots(offset: usize, row: &str) -> Vec<SlotMeta> {
    row.split_whitespace()
        .enumerate()
        .map(|(slot, flags)| SlotMeta {
            address: address((offset + slot) as u8 + 1),
            is_signer: flags.ends_with('S'),
            is_writable: flags.starts_with('W'),
        })
        .collect()
}

/// What the deposit over A0..A67 and P0..P7 hands to the downstream programs.
fn manifest() -> Vec<Invocation> {
    let entries: [(Address, usize, &str); 8] = [
        (lending(), 0, "RS WS W R R R"),
        (lending(), 6, "RS WS W R R R R R R"),
        (farms(), 15, "WS RS W W W W W R R R R"),
        (lending(), 26, "W R R R R R"),
        (lending(), 32, "R W"),
        (farms(), 34, "WS R W R W W R R R R"),
        (lending(), 44, "WS W R R W W W W W W R R R RS"),
        (farms(), 58, "WS R W R W W R R R R"),
    ];
    entries
        .iter()
        .zip(payload_list(8))
        .map(|((program_id, offset, row), data)| {
            let accounts = slots(*offset, row);
            let window = accounts.iter().map(|slot| slot.address.bytes).collect();
            (SubCall { program_id: *program_id, accounts, data }, window)
        })
        .collect()
}

fn record(log: &RefCell<Vec<Invocation>>, call: &SubCall, window: &[AccountInfo]) {
    let copy = SubCall {
        program_id: call.program_id,
        accounts: call.accounts.clone(),
        data: call.data.clone(),
    };
    log.borrow_mut().push((copy, window.iter().map(|info| info.key.to_bytes()).collect()));
}

/// Runs a deposit over `accounts` accounts and `payloads` payloads against
/// downstream programs of which the sub-call at position `failing` fails.
fn deposit(
    accounts: usize,
    payloads: usize,
    failing: Option<(usize, ProgramError)>,
) -> (Result<(), DepositError>, Vec<Invocation>) {
    let keys = keys(accounts);
    let mut lamports = vec![0u64; accounts];
    let mut data = vec![Vec::new(); accounts];
    let owner = Pubkey::new_from_array([0; 32]);
    let infos = handles(&keys, &mut lamports, &mut data, &owner);
    let log: RefCell<Vec<Invocation>> = RefCell::new(Vec::new());
    let result = dispatch_sub_calls(
        &lending(),
        &farms(),
        &addresses(&keys),
        &infos,
        &payload_list(payloads),
        |call: &SubCall, window: &[AccountInfo]| {
            let position = log.borrow().len();
            record(&log, call, window);
            match &failing {
                Some((failed, error)) if *failed == position => Err(error.clone()),
                _ => Ok(()),
            }
        },
    );
    (result, log.into_inner())
}

#[test]
fn advance_moves_on_after_a_success() {
    for position in 0..7usize {
        assert_eq!(advance(8, position, Ok(())), Decision::Proceed { next: position + 1 });
    }
}

#[test]
fn advance_completes_after_the_last_success() {
    assert_eq!(advance(8, 7, Ok(())), Decision::Complete);
    assert_eq!(advance(6, 5, Ok(())), Decision::Complete);
    assert_eq!(advance(1, 0, Ok(())), Decision::Complete);
}

#[test]
fn advance_aborts_on_a_failure_with_the_error_unchanged() {
    for position in 0..8usize {
        assert_eq!(
            advance(8, position, Err(ProgramError::Custom(17))),
            Decision::Abort {
                failure: DepositError::SubCallFailure {
                    index: position,
                    error: ProgramError::Custom(17)
                }
            }
        );
    }
    assert_eq!(
        advance(8, 2, Err(ProgramError::InsufficientFunds)),
        Decision::Abort {
            failure: DepositError::SubCallFailure {
                index: 2,
                error: ProgramError::InsufficientFunds
            }
        }
    );
}

#[test]
fn advance_past_the_sequence() {
    assert_eq!(advance(8, 8, Ok(())), Decision::Complete);
    assert_eq!(advance(0, 0, Ok(())), Decision::Complete);
    assert_eq!(advance(8, usize::MAX, Ok(())), Decision::Complete);
    assert_eq!(
        advance(8, usize::MAX, Err(ProgramError::InvalidArgument)),
        Decision::Abort {
            failure: DepositError::SubCallFailure {
                index: usize::MAX,
                error: ProgramError::InvalidArgument
            }
        }
    );
}

#[test]
fn happy_path_invokes_all_eight_sub_calls_in_order() {
    let (result, invoked) = deposit(68, 8, None);
    assert_eq!(result, Ok(()));
    assert_eq!(invoked, manifest());
}

#[test]
fn accounts_and_payloads_past_the_reserved_ones_are_ignored() {
    let (result, invoked) = deposit(75, 10, None);
    assert_eq!(result, Ok(()));
    assert_eq!(invoked, manifest());
}

#[test]
fn short_account_list_invokes_nothing() {
    let (result, invoked) = deposit(67, 8, None);
    assert_eq!(result, Err(DepositError::InsufficientAccounts));
    assert!(invoked.is_empty());
}

#[test]
fn empty_account_list_invokes_nothing() {
    let (result, invoked) = deposit(0, 8, None);
    assert_eq!(result, Err(DepositError::InsufficientAccounts));
    assert!(invoked.is_empty());
}

#[test]
fn missing_payload_invokes_nothing() {
    let (result, invoked) = deposit(68, 7, None);
    assert_eq!(result, Err(DepositError::MissingPayload));
    assert!(invoked.is_empty());
}

#[test]
fn short_account_list_is_reported_before_a_missing_payload() {
    let (result, invoked) = deposit(67, 7, None);
    assert_eq!(result, Err(DepositError::InsufficientAccounts));
    assert!(invoked.is_empty());
}

#[test]
fn short_address_list_invokes_nothing() {
    let keys = keys(68);
    let mut lamports = vec![0u64; 68];
    let mut data = vec![Vec::new(); 68];
    let owner = Pubkey::new_from_array([0; 32]);
    let infos = handles(&keys, &mut lamports, &mut data, &owner);
    let log: RefCell<Vec<Invocation>> = RefCell::new(Vec::new());
    let result = dispatch_sub_calls(
        &lending(),
        &farms(),
        &addresses(&keys[..67]),
        &infos,
        &payload_list(8),
        |call: &SubCall, window: &[AccountInfo]| {
            record(&log, call, window);
            Ok(())
        },
    );
    assert_eq!(result, Err(DepositError::InsufficientAccounts));
    assert!(log.into_inner().is_empty());
}

#[test]
fn mid_sequence_failure_stops_the_deposit() {
    let (result, invoked) = deposit(68, 8, Some((3, ProgramError::Custom(0x1771))));
    assert_eq!(
        result,
        Err(DepositError::SubCallFailure { index: 3, error: ProgramError::Custom(0x1771) })
    );
    assert_eq!(invoked, manifest()[..4]);
}

#[test]
fn first_sub_call_failure_stops_the_deposit_at_once() {
    let (result, invoked) = deposit(68, 8, Some((0, ProgramError::MissingRequiredSignature)));
    assert_eq!(
        result,
        Err(DepositError::SubCallFailure {
            index: 0,
            error: ProgramError::MissingRequiredSignature
        })
    );
    assert_eq!(invoked, manifest()[..1]);
}

#[test]
fn last_sub_call_failure_fails_the_deposit() {
    let (result, invoked) = deposit(68, 8, Some((7, ProgramError::InvalidAccountData)));
    assert_eq!(
        result,
        Err(DepositError::SubCallFailure { index: 7, error: ProgramError::InvalidAccountData })
    );
    assert_eq!(invoked, manifest());
}

#[test]
fn every_failing_position_leaves_the_later_sub_calls_alone() {
    for failed in 0..8usize {
        let (result, invoked) = deposit(68, 8, Some((failed, ProgramError::Custom(failed as u32))));
        assert_eq!(
            result,
            Err(DepositError::SubCallFailure {
                index: failed,
                error: ProgramError::Custom(failed as u32)
            })
        );
        assert_eq!(invoked, manifest()[..failed + 1]);
    }
}
