//! Sub-call descriptors: what is handed to a downstream program.

use crate::address::Address;
use crate::layout::SlotFlags;
use vstd::prelude::*;

verus! {

/// One entry of a sub-call's account metadata: the account in a slot and the
/// flags the downstream ABI attaches to that slot.
#[derive(Clone, Copy, Debug, PartialEq, Eq)]
pub struct SlotMeta {
    pub address: Address,
    pub is_signer: bool,
    pub is_writable: bool,
}

/// A sub-call as the downstream program receives it. The order of `accounts`
/// is fixed by the downstream protocol.
#[derive(Debug, PartialEq, Eq)]
pub struct SubCall {
    pub program_id: Address,
    pub accounts: Vec<SlotMeta>,
    pub data: Vec<u8>,
}

/// The mathematical content of a [`SubCall`].
pub struct SubCallView {
    pub program_id: Address,
    pub accounts: Seq<SlotMeta>,
    pub data: Seq<u8>,
}

impl View for SubCall {
    type V = SubCallView;

    open spec fn view(&self) -> SubCallView {
        SubCallView { program_id: self.program_id, accounts: self.accounts@, data: self.data@ }
    }
}

/// The metadata of a slot that holds `address` under `flags`.
pub open spec fn slot_meta(address: Address, flags: SlotFlags) -> SlotMeta {
    SlotMeta { address, is_signer: flags.is_signer, is_writable: flags.is_writable }
}

/// The account metadata of a sub-call whose slots hold `addresses` under
/// `flags`, slot by slot.
pub open spec fn paired(addresses: Seq<Address>, flags: Seq<SlotFlags>) -> Seq<SlotMeta> {
    Seq::new(addresses.len(), |slot: int| slot_meta(addresses[slot], flags[slot]))
}

/// Builds the sub-call to `program_id` whose slots hold `addresses` under
/// `flags` and whose payload is `data`, taken as it is.
pub(crate) fn build_sub_call(
    program_id: Address,
    addresses: &[Address],
    flags: &[SlotFlags],
    data: Vec<u8>,
) -> (call: SubCall)
    requires
        addresses@.len() == flags@.len(),
    ensures
        call@ == (SubCallView {
            program_id,
            accounts: paired(addresses@, flags@),
            data: data@,
        }),
{
    let mut accounts: Vec<SlotMeta> = Vec::with_capacity(addresses.len());
    let mut slot: usize = 0;
    while slot < addresses.len()
        invariant
            slot <= addresses@.len(),
            addresses@.len() == flags@.len(),
            accounts@ == paired(addresses@, flags@).take(slot as int),
        decreases addresses@.len() - slot,
    {
        let flags_here = flags[slot];
        accounts.push(
            SlotMeta {
                address: addresses[slot],
                is_signer: flags_here.is_signer,
                is_writable: flags_here.is_writable,
            },
        );
        slot += 1;
    }
    assert(accounts@ =~= paired(addresses@, flags@));
    SubCall { program_id, accounts, data }
}

} // verus!
