//! The commands of the pack program, already decoded into typed values.

use vstd::prelude::*;
use crate::state::{ActionOnProve, DistributionType};

verus! {

/// The arguments of `InitPack`.
#[derive(Clone, Copy, Debug, PartialEq, Eq)]
pub struct InitPackSetArgs {
    /// The pack set's label.
    pub name: [u8; 32],
    /// How many distinct packs are offered.
    pub total_packs: u32,
    /// Whether the pack set can be edited after creation.
    pub mutable: bool,
}

/// The arguments of `EditPack`: each field that is present is changed.
#[derive(Clone, Copy, Debug, PartialEq, Eq)]
pub struct EditPackSetArgs {
    /// The new label.
    pub name: Option<[u8; 32]>,
    /// The new number of packs.
    pub total_packs: Option<u32>,
    /// The new mutability.
    pub mutable: Option<bool>,
}

/// The arguments of `AddCardToPack`.
#[derive(Clone, Copy, Debug, PartialEq, Eq)]
pub struct AddCardToPackArgs {
    /// The most editions that may be minted; no limit where absent.
    pub max_supply: Option<u32>,
    /// How `probability` is read.
    pub probability_type: DistributionType,
    /// The card's weight, a share of the probability pool.
    pub probability: u64,
    /// The card's 1-based index within the pack set.
    pub index: u32,
}

/// The arguments of `AddVoucherToPack`.
#[derive(Clone, Copy, Debug, PartialEq, Eq)]
pub struct AddVoucherToPackArgs {
    /// The most vouchers that may be issued; no limit where absent.
    pub max_supply: Option<u32>,
    /// How many vouchers a holder must prove to open one pack.
    pub number_to_open: u32,
    /// What becomes of a voucher once it has been proven.
    pub action_on_prove: ActionOnProve,
}

/// A command of the pack program.
#[derive(Clone, Copy, Debug, PartialEq, Eq)]
pub enum NFTPacksInstruction {
    /// Creates a pack set.
    InitPack(InitPackSetArgs),
    /// Registers the next card of a pack set.
    AddCardToPack(AddCardToPackArgs),
    /// Registers the next voucher of a pack set.
    AddVoucherToPack(AddVoucherToPackArgs),
    /// Takes a pack set live.
    Activate,
    /// Closes a live pack set for good.
    Deactivate,
    /// Records that a holder owns one voucher.
    ProveOwnership,
    /// Selects a card for a holder whose vouchers are proven.
    ClaimPack,
    /// Hands the pack set to another authority.
    TransferAuthority,
    /// Removes a pack set.
    DeletePack,
    /// Removes a card.
    DeletePackCard,
    /// Removes a voucher.
    DeletePackVoucher,
    /// Changes a pack set's name, number of packs or mutability.
    EditPack(EditPackSetArgs),
    /// Changes a card.
    EditPackCard,
    /// Changes a voucher.
    EditPackVoucher,
}

impl NFTPacksInstruction {
    /// Whether the program carries the instruction out. The instructions
    /// that hand over the authority, delete, or change a card or a voucher
    /// are named but not carried out.
    pub open spec fn spec_is_supported(&self) -> bool {
        match self {
            NFTPacksInstruction::TransferAuthority => false,
            NFTPacksInstruction::DeletePack => false,
            NFTPacksInstruction::DeletePackCard => false,
            NFTPacksInstruction::DeletePackVoucher => false,
            NFTPacksInstruction::EditPackCard => false,
            NFTPacksInstruction::EditPackVoucher => false,
            _ => true,
        }
    }

    /// Whether the program carries the instruction out.
    #[verifier::when_used_as_spec(spec_is_supported)]
    pub fn is_supported(&self) -> (yes: bool)
        ensures
            yes == self.spec_is_supported(),
    {
        match self {
            NFTPacksInstruction::TransferAuthority => false,
            NFTPacksInstruction::DeletePack => false,
            NFTPacksInstruction::DeletePackCard => false,
            NFTPacksInstruction::DeletePackVoucher => false,
            NFTPacksInstruction::EditPackCard => false,
            NFTPacksInstruction::EditPackVoucher => false,
            _ => true,
        }
    }
}

} // verus!
