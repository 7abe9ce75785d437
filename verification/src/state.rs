//! The persistent records and the small enumerations stored in them.
//!
//! Every record has a fixed length and starts with a one-byte kind tag.

use vstd::prelude::*;

pub mod pack_card;
pub mod pack_set;
pub mod pack_voucher;
pub mod proving_process;

verus! {

/// The fixed denominator against which card weights are expressed.
pub const PROBABILITY_POOL: u64 = 1_000_000;

/// The kind of record that a storage region holds.
#[derive(Clone, Copy, Debug, PartialEq, Eq, Structural)]
pub enum AccountType {
    /// Storage that holds no record yet.
    Uninitialized,
    /// A pack set.
    PackSet,
    /// A card of a pack set.
    PackCard,
    /// A voucher of a pack set.
    PackVoucher,
    /// A holder's claim in progress.
    ProvingProcess,
}

impl AccountType {
    /// The tag byte of this kind.
    pub open spec fn spec_tag(self) -> u8 {
        match self {
            AccountType::Uninitialized => 0u8,
            AccountType::PackSet => 1u8,
            AccountType::PackCard => 2u8,
            AccountType::PackVoucher => 3u8,
            AccountType::ProvingProcess => 4u8,
        }
    }

    /// The tag byte of this kind.
    #[verifier::when_used_as_spec(spec_tag)]
    pub fn tag(self) -> (t: u8)
        ensures
            t == self.spec_tag(),
    {
        match self {
            AccountType::Uninitialized => 0u8,
            AccountType::PackSet => 1u8,
            AccountType::PackCard => 2u8,
            AccountType::PackVoucher => 3u8,
            AccountType::ProvingProcess => 4u8,
        }
    }
}

/// The lifecycle phase of a pack set.
#[derive(Clone, Copy, Debug, PartialEq, Eq, Structural)]
pub enum PackSetState {
    /// Created, still open to registration and edits.
    NotActivated,
    /// Live: vouchers can be proven and cards claimed.
    Activated,
    /// Closed for good.
    Deactivated,
}

impl PackSetState {
    /// The byte that stands for this phase.
    pub open spec fn spec_byte(self) -> u8 {
        match self {
            PackSetState::NotActivated => 0u8,
            PackSetState::Activated => 1u8,
            PackSetState::Deactivated => 2u8,
        }
    }

    /// The phase that a byte stands for, if any.
    pub open spec fn spec_from_byte(b: u8) -> Option<PackSetState> {
        if b == 0 {
            Some(PackSetState::NotActivated)
        } else if b == 1 {
            Some(PackSetState::Activated)
        } else if b == 2 {
            Some(PackSetState::Deactivated)
        } else {
            None
        }
    }

    /// The byte that stands for this phase.
    #[verifier::when_used_as_spec(spec_byte)]
    pub fn byte(self) -> (b: u8)
        ensures
            b == self.spec_byte(),
    {
        match self {
            PackSetState::NotActivated => 0u8,
            PackSetState::Activated => 1u8,
            PackSetState::Deactivated => 2u8,
        }
    }

    /// The phase that a byte stands for, if any.
    #[verifier::when_used_as_spec(spec_from_byte)]
    pub fn from_byte(b: u8) -> (s: Option<PackSetState>)
        ensures
            s == Self::spec_from_byte(b),
    {
        if b == 0 {
            Some(PackSetState::NotActivated)
        } else if b == 1 {
            Some(PackSetState::Activated)
        } else if b == 2 {
            Some(PackSetState::Deactivated)
        } else {
            None
        }
    }
}

/// How a card's weight is read. Today there is one way: the weight is the
/// card's share of the probability pool.
#[derive(Clone, Copy, Debug, PartialEq, Eq, Structural)]
pub enum DistributionType {
    /// The weight is a share of `PROBABILITY_POOL`.
    ProbabilityBased,
}

impl DistributionType {
    /// The byte that stands for this kind of weight.
    pub open spec fn spec_byte(self) -> u8 {
        0u8
    }

    /// The kind of weight that a byte stands for, if any.
    pub open spec fn spec_from_byte(b: u8) -> Option<DistributionType> {
        if b == 0 {
            Some(DistributionType::ProbabilityBased)
        } else {
            None
        }
    }

    /// The byte that stands for this kind of weight.
    #[verifier::when_used_as_spec(spec_byte)]
    pub fn byte(self) -> (b: u8)
        ensures
            b == self.spec_byte(),
    {
        0u8
    }

    /// The kind of weight that a byte stands for, if any.
    #[verifier::when_used_as_spec(spec_from_byte)]
    pub fn from_byte(b: u8) -> (s: Option<DistributionType>)
        ensures
            s == Self::spec_from_byte(b),
    {
        if b == 0 {
            Some(DistributionType::ProbabilityBased)
        } else {
            None
        }
    }
}

/// What becomes of a voucher once it has been proven.
#[derive(Clone, Copy, Debug, PartialEq, Eq, Structural)]
pub enum ActionOnProve {
    /// The voucher is destroyed.
    Burn,
    /// The voucher is kept and marked as used.
    Redeem,
}

impl ActionOnProve {
    /// The byte that stands for this disposition.
    pub open spec fn spec_byte(self) -> u8 {
        match self {
            ActionOnProve::Burn => 0u8,
            ActionOnProve::Redeem => 1u8,
        }
    }

    /// The disposition that a byte stands for, if any.
    pub open spec fn spec_from_byte(b: u8) -> Option<ActionOnProve> {
        if b == 0 {
            Some(ActionOnProve::Burn)
        } else if b == 1 {
            Some(ActionOnProve::Redeem)
        } else {
            None
        }
    }

    /// The byte that stands for this disposition.
    #[verifier::when_used_as_spec(spec_byte)]
    pub fn byte(self) -> (b: u8)
        ensures
            b == self.spec_byte(),
    {
        match self {
            ActionOnProve::Burn => 0u8,
            ActionOnProve::Redeem => 1u8,
        }
    }

    /// The disposition that a byte stands for, if any.
    #[verifier::when_used_as_spec(spec_from_byte)]
    pub fn from_byte(b: u8) -> (s: Option<ActionOnProve>)
        ensures
            s == Self::spec_from_byte(b),
    {
        if b == 0 {
            Some(ActionOnProve::Burn)
        } else if b == 1 {
            Some(ActionOnProve::Redeem)
        } else {
            None
        }
    }
}

} // verus!
