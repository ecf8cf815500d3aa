//! The per-operation account manifest: slot counts, per-slot flags and the
//! program each operation is addressed to.

use vstd::prelude::*;

verus! {

/// The downstream program an operation is addressed to.
#[derive(Clone, Copy, Debug, PartialEq, Eq, Structural)]
pub enum Target {
    Lending,
    Farms,
}

/// What the downstream ABI asks of one account slot.
#[derive(Clone, Copy, Debug, PartialEq, Eq, Structural)]
pub struct SlotFlags {
    pub is_writable: bool,
    pub is_signer: bool,
}

/// A read-only slot.
pub open spec fn read_only() -> SlotFlags {
    SlotFlags { is_writable: false, is_signer: false }
}

/// A read-only slot whose account must have signed.
pub open spec fn read_only_signer() -> SlotFlags {
    SlotFlags { is_writable: false, is_signer: true }
}

/// A writable slot.
pub open spec fn writable() -> SlotFlags {
    SlotFlags { is_writable: true, is_signer: false }
}

/// A writable slot whose account must have signed.
pub open spec fn writable_signer() -> SlotFlags {
    SlotFlags { is_writable: true, is_signer: true }
}

/// The downstream operations a deposit is composed of.
#[derive(Clone, Copy, Debug, PartialEq, Eq, Structural)]
pub enum Operation {
    Initiate,
    InitObligation,
    InitObligationFarmsForReserve,
    RefreshReserve,
    RefreshObligation,
    RefreshObligationFarmsForReserve,
    DepositReserveLiquidityAndObligationCollateral,
}

impl Operation {
    /// The flags of every slot of the operation, in slot order.
    pub open spec fn flag_row(self) -> Seq<SlotFlags> {
        let r = read_only();
        let rs = read_only_signer();
        let w = writable();
        let ws = writable_signer();
        match self {
            Operation::Initiate => seq![rs, ws, w, r, r, r],
            Operation::InitObligation => seq![rs, ws, w, r, r, r, r, r, r],
            Operation::InitObligationFarmsForReserve => seq![ws, rs, w, w, w, w, w, r, r, r, r],
            Operation::RefreshReserve => seq![w, r, r, r, r, r],
            Operation::RefreshObligation => seq![r, w],
            Operation::RefreshObligationFarmsForReserve => seq![ws, r, w, r, w, w, r, r, r, r],
            Operation::DepositReserveLiquidityAndObligationCollateral => seq![
                ws, w, r, r, w, w, w, w, w, w, r, r, r, rs
            ],
        }
    }

    /// The number of account slots the operation takes.
    pub open spec fn spec_slot_count(self) -> nat {
        self.flag_row().len()
    }

    /// The program the operation is addressed to.
    pub open spec fn spec_target(self) -> Target {
        match self {
            Operation::InitObligationFarmsForReserve
            | Operation::RefreshObligationFarmsForReserve => Target::Farms,
            _ => Target::Lending,
        }
    }

    /// The number of account slots the operation takes.
    pub fn slot_count(self) -> (count: usize)
        ensures
            count == self.spec_slot_count(),
    {
        match self {
            Operation::Initiate => 6,
            Operation::InitObligation => 9,
            Operation::InitObligationFarmsForReserve => 11,
            Operation::RefreshReserve => 6,
            Operation::RefreshObligation => 2,
            Operation::RefreshObligationFarmsForReserve => 10,
            Operation::DepositReserveLiquidityAndObligationCollateral => 14,
        }
    }

    /// The program the operation is addressed to.
    pub fn target(self) -> (target: Target)
        ensures
            target == self.spec_target(),
    {
        match self {
            Operation::InitObligationFarmsForReserve => Target::Farms,
            Operation::RefreshObligationFarmsForReserve => Target::Farms,
            _ => Target::Lending,
        }
    }

    /// The flags of one slot, or `None` past the operation's last slot.
    pub fn slot_flags(self, slot: usize) -> (flags: Option<SlotFlags>)
        ensures
            slot < self.spec_slot_count() ==> flags == Some(self.flag_row()[slot as int]),
            slot >= self.spec_slot_count() ==> flags is None,
    {
        if slot < self.slot_count() {
            Some(self.flags_at(slot))
        } else {
            None
        }
    }

    /// The flags of every slot of the operation, in slot order.
    pub fn flags(self) -> (row: Vec<SlotFlags>)
        ensures
            row@ == self.flag_row(),
    {
        let count = self.slot_count();
        let mut row: Vec<SlotFlags> = Vec::with_capacity(count);
        let mut slot: usize = 0;
        while slot < count
            invariant
                slot <= count,
                count == self.spec_slot_count(),
                row@ == self.flag_row().take(slot as int),
            decreases count - slot,
        {
            row.push(self.flags_at(slot));
            slot += 1;
        }
        assert(row@ =~= self.flag_row());
        row
    }

    fn flags_at(self, slot: usize) -> (flags: SlotFlags)
        requires
            slot < self.spec_slot_count(),
        ensures
            flags == self.flag_row()[slot as int],
    {
        let (is_writable, is_signer): (bool, bool) = match self {
            Operation::Initiate | Operation::InitObligation => (slot == 1 || slot == 2, slot <= 1),
            Operation::InitObligationFarmsForReserve => (slot != 1 && slot <= 6, slot <= 1),
            Operation::RefreshReserve => (slot == 0, false),
            Operation::RefreshObligation => (slot == 1, false),
            Operation::RefreshObligationFarmsForReserve => (
                slot == 0 || slot == 2 || slot == 4 || slot == 5,
                slot == 0,
            ),
            Operation::DepositReserveLiquidityAndObligationCollateral => (
                slot <= 1 || (4 <= slot && slot <= 9),
                slot == 0 || slot == 13,
            ),
        };
        SlotFlags { is_writable, is_signer }
    }
}

} // verus!
