use anchor_lang::solana_program::program_stubs::{set_syscall_stubs, SyscallStubs};
use anchor_lang::solana_program::account_info::AccountInfo;
use anchor_lang::solana_program::instruction::Instruction;
use anchor_lang::solana_program::program_error::ProgramError;
use anchor_lang::solana_program::pubkey::Pubkey;
use kamino_deposit::error::DepositError;
use kamino_deposit::named::execute_named_operations;
use kamino_deposit::payload_driven::{execute_kamino_operations, ExecuteKaminoOperations};
use std::sync::{Arc, Mutex};

/// One slot as the host saw it: address, signer flag, writable flag.
type Slot = ([u8; 32], bool, bool);

/// One invocation as the host saw it.
#[derive(Debug, PartialEq, Eq, Clone)]
struct Seen {
    program_id: [u8; 32],
    slots: Vec<Slot>,
    data: Vec<u8>,
    handles: Vec<[u8; 32]>,
}

/// A host that records every invocation and fails the one at `failing`.
struct Recorder {
    log: Arc<Mutex<Vec<Seen>>>,
    failing: Option<(usize, ProgramError)>,
}

impl SyscallStubs for Recorder {
    fn sol_invoke_signed(
        &self,
        instruction: &Instruction,
        account_infos: &[AccountInfo],
        _signers_seeds: &[&[&[u8]]],
    ) -> Result<(), ProgramError> {
        let mut log = self.log.lock().unwrap();
        let position = log.len();
        log.push(Seen {
            program_id: instruction.program_id.to_bytes(),
            slots: instruction
                .accounts
                .iter()
                .map(|meta| (meta.pubkey.to_bytes(), meta.is_signer, meta.is_writable))
                .collect(),
            data: instruction.data.clone(),
            handles: account_infos.iter().map(|info| info.key.to_bytes()).collect(),
        });
        match &self.failing {
            Some((failed, error)) if *failed == position => Err(error.clone()),
            _ => Ok(()),
        }
    }
}

fn record(failing: Option<(usize, ProgramError)>) -> Arc<Mutex<Vec<Seen>>> {
    let log = Arc::new(Mutex::new(Vec::new()));
    set_syscall_stubs(Box::new(Recorder { log: log.clone(), failing }));
    log
}

fn key(tag: u8) -> Pubkey {
    Pubkey::new_from_array([tag; 32])
}

fn keys(count: usize) -> Vec<Pubkey> {
    (0..count).map(|position| key(position as u8 + 1)).collect()
}

fn handles<'a>(
    keys: &'a [Pubkey],
    lamports: &'a mut [u64],
    data: &'a mut [Vec<u8>],
    owner: &'a Pubkey,
) -> Vec<AccountInfo<'a>> {
    keys.iter()
        .zip(lamports.iter_mut())
        .zip(data.iter_mut())
        .map(|((key, lamports), data)| {
            AccountInfo::new(key, false, false, lamports, data.as_mut_slice(), owner, false, 0)
        })
        .collect()
}

fn payload_list(count: usize) -> Vec<Vec<u8>> {
    (0..count).map(|position| vec![0xA0 + position as u8; position + 1]).collect()
}

fn slots(addresses: &[u8], row: &str) -> Vec<Slot> {
    addresses
        .iter()
        .zip(row.split_whitespace())
        .map(|(tag, flags)| ([*tag; 32], flags.ends_with('S'), flags.starts_with('W')))
        .collect()
}

fn seen(program: u8, addresses: &[u8], row: &str, data: Vec<u8>) -> Seen {
    Seen {
        program_id: [program; 32],
        slots: slots(addresses, row),
        data,
        handles: addresses.iter().map(|tag| [*tag; 32]).collect(),
    }
}

/// What the payload-driven deposit over A0..A67 and P0..P7 hands to the
/// host; account `i` has every byte equal to `i + 1`.
fn manifest() -> Vec<Seen> {
    let entries: [(u8, usize, &str); 8] = [
        (200, 0, "RS WS W R R R"),
        (200, 6, "RS WS W R R R R R R"),
        (201, 15, "WS RS W W W W W R R R R"),
        (200, 26, "W R R R R R"),
        (200, 32, "R W"),
        (201, 34, "WS R W R W W R R R R"),
        (200, 44, "WS W R R W W W W W W R R R RS"),
        (201, 58, "WS R W R W W R R R R"),
    ];
    entries
        .iter()
        .zip(payload_list(8))
        .map(|((program, offset, row), data)| {
            let count = row.split_whitespace().count();
            let addresses: Vec<u8> = (*offset..*offset + count).map(|p| p as u8 + 1).collect();
            seen(*program, &addresses, row, data)
        })
        .collect()
}

/// What the named-account deposit of 1_000_000 hands to the host; the
/// account at position `i` of the bundle has every byte equal to `i + 1`.
fn named_manifest() -> Vec<Seen> {
    vec![
        seen(30, &[1, 2, 3, 4, 24, 24, 22, 23, 24], "WS WS W W W W W R R", vec![0x00, 0x00]),
        seen(
            29,
            &[25, 26, 3, 5, 6, 7, 8, 4, 29, 23, 24],
            "WS RS W W W W W R R R R",
            vec![0x00, 0x01],
        ),
        seen(30, &[6, 4, 18, 19, 20, 21], "W R R R R R", vec![0x01]),
        seen(30, &[4, 3], "R W", vec![0x02]),
        seen(
            30,
            &[26, 3, 4, 5, 6, 9, 10, 11, 12, 13, 14, 15, 16, 17],
            "WS W R R W W W W W W R R R RS",
            vec![0x04, 0x40],
        ),
        seen(29, &[27, 3, 5, 6, 7, 28, 4, 29, 23, 24], "WS R W R W W R R R R", vec![0x03]),
    ]
}

/// Runs the payload-driven deposit through the host.
fn deposit(
    accounts: usize,
    payloads: usize,
    failing: Option<(usize, ProgramError)>,
) -> (Result<(), DepositError>, Vec<Seen>) {
    let log = record(failing);
    let keys = keys(accounts);
    let mut lamports = vec![0u64; accounts];
    let mut data = vec![Vec::new(); accounts];
    let owner = key(0);
    let infos = handles(&keys, &mut lamports, &mut data, &owner);
    let programs = [key(200), key(201)];
    let mut program_lamports = vec![0u64; 2];
    let mut program_data = vec![Vec::new(); 2];
    let mut program_infos = handles(&programs, &mut program_lamports, &mut program_data, &owner);
    let farms_program = program_infos.pop().unwrap();
    let kamino_program = program_infos.pop().unwrap();
    let named = ExecuteKaminoOperations { kamino_program, farms_program };
    let result = execute_kamino_operations(&named, &infos, payload_list(payloads));
    let invoked = log.lock().unwrap().clone();
    (result, invoked)
}

/// Runs the named-account deposit through the host.
fn named_deposit(
    accounts: usize,
    amount: u64,
    failing: Option<(usize, ProgramError)>,
) -> (Result<(), DepositError>, Vec<Seen>) {
    let log = record(failing);
    let keys = keys(accounts);
    let mut lamports = vec![0u64; accounts];
    let mut data = vec![Vec::new(); accounts];
    let owner = key(0);
    let infos = handles(&keys, &mut lamports, &mut data, &owner);
    let result = execute_named_operations(&infos, amount);
    let invoked = log.lock().unwrap().clone();
    (result, invoked)
}

#[test]
fn host_receives_the_eight_sub_calls_in_order() {
    let (result, invoked) = deposit(68, 8, None);
    assert_eq!(result, Ok(()));
    assert_eq!(invoked.len(), 8);
    assert_eq!(invoked, manifest());
}

#[test]
fn host_receives_nothing_for_a_short_account_list() {
    let (result, invoked) = deposit(67, 8, None);
    assert_eq!(result, Err(DepositError::InsufficientAccounts));
    assert!(invoked.is_empty());
}

#[test]
fn host_receives_nothing_for_a_missing_payload() {
    let (result, invoked) = deposit(68, 7, None);
    assert_eq!(result, Err(DepositError::MissingPayload));
    assert!(invoked.is_empty());
}

#[test]
fn host_failure_in_refresh_reserve_stops_the_deposit() {
    let (result, invoked) = deposit(68, 8, Some((3, ProgramError::Custom(6001))));
    assert_eq!(
        result,
        Err(DepositError::SubCallFailure { index: 3, error: ProgramError::Custom(6001) })
    );
    assert_eq!(invoked, manifest()[..4]);
}

#[test]
fn host_refuses_an_account_that_is_already_borrowed() {
    let log = record(None);
    let keys = keys(68);
    let mut lamports = vec![0u64; 68];
    let mut data = vec![Vec::new(); 68];
    let owner = key(0);
    let infos = handles(&keys, &mut lamports, &mut data, &owner);
    let programs = [key(200), key(201)];
    let mut program_lamports = vec![0u64; 2];
    let mut program_data = vec![Vec::new(); 2];
    let mut program_infos = handles(&programs, &mut program_lamports, &mut program_data, &owner);
    let farms_program = program_infos.pop().unwrap();
    let kamino_program = program_infos.pop().unwrap();
    let named = ExecuteKaminoOperations { kamino_program, farms_program };
    let held = infos[7].try_borrow_mut_data().unwrap();
    let result = execute_kamino_operations(&named, &infos, payload_list(8));
    drop(held);
    assert_eq!(
        result,
        Err(DepositError::SubCallFailure { index: 1, error: ProgramError::AccountBorrowFailed })
    );
    assert_eq!(log.lock().unwrap().clone(), manifest()[..1]);
}

#[test]
fn host_receives_the_six_named_sub_calls_in_order() {
    let (result, invoked) = named_deposit(31, 1_000_000, None);
    assert_eq!(result, Ok(()));
    assert_eq!(invoked.len(), 6);
    assert_eq!(invoked[4].data, vec![0x04, 0x40]);
    assert_eq!(invoked, named_manifest());
}

#[test]
fn host_receives_nothing_for_a_short_bundle() {
    let (result, invoked) = named_deposit(30, 1_000_000, None);
    assert_eq!(result, Err(DepositError::InsufficientAccounts));
    assert!(invoked.is_empty());
}

#[test]
fn host_failure_in_the_named_deposit_stops_it() {
    let (result, invoked) = named_deposit(31, 1_000_000, Some((4, ProgramError::InsufficientFunds)));
    assert_eq!(
        result,
        Err(DepositError::SubCallFailure { index: 4, error: ProgramError::InsufficientFunds })
    );
    assert_eq!(invoked, named_manifest()[..5]);
}
