//! The pack card record: a weighted prize slot of a pack set.

use vstd::prelude::*;
use vstd::bytes::{spec_u32_from_le_bytes, spec_u32_to_le_bytes, lemma_auto_spec_u32_to_from_le_bytes};
use vstd::bytes::{spec_u64_from_le_bytes, spec_u64_to_le_bytes, lemma_auto_spec_u64_to_from_le_bytes};
use crate::account::Key;
use crate::codec::{lemma_option_u32_roundtrip, option_u32_bytes, parse_option_u32};
use crate::codec::{put_key, put_option_u32, put_u32, put_u64, read_key, read_option_u32, read_u32, read_u64};
use crate::error::PackError;
use crate::math::{spec_increment_u32, SafeMath};
use crate::state::{AccountType, DistributionType};

verus! {

/// A card as it is stored.
#[derive(Clone, Copy, Debug, PartialEq, Eq)]
pub struct PackCard {
    /// The record's kind. `PackCard` in every stored card.
    pub account_type: AccountType,
    /// The address of the pack set the card belongs to.
    pub pack_set: Key,
    /// The collectible template that editions are printed from.
    pub master: Key,
    /// The card's 1-based position among the cards of its pack set.
    pub index: u32,
    /// The most editions that may be minted; no limit where absent.
    pub max_supply: Option<u32>,
    /// How many editions have been minted.
    pub minted: u32,
    /// How `probability` is read.
    pub probability_type: DistributionType,
    /// The card's weight, a share of the probability pool.
    pub probability: u64,
}

/// A card as a mathematical value.
pub struct PackCardView {
    pub account_type: AccountType,
    pub pack_set: Seq<u8>,
    pub master: Seq<u8>,
    pub index: u32,
    pub max_supply: Option<u32>,
    pub minted: u32,
    pub probability_type: DistributionType,
    pub probability: u64,
}

impl View for PackCard {
    type V = PackCardView;

    open spec fn view(&self) -> PackCardView {
        PackCardView {
            account_type: self.account_type,
            pack_set: self.pack_set@,
            master: self.master@,
            index: self.index,
            max_supply: self.max_supply,
            minted: self.minted,
            probability_type: self.probability_type,
            probability: self.probability,
        }
    }
}

/// The number of bytes of a stored card.
pub const PACK_CARD_LEN: usize = 87;

impl PackCardView {
    /// The two key fields have their fixed length.
    pub open spec fn wf(self) -> bool {
        &&& self.pack_set.len() == 32
        &&& self.master.len() == 32
    }

    /// The stored bytes: kind tag, pack set, template, index, weight kind,
    /// weight, minted count, and last the optional maximum supply.
    pub open spec fn encode(self) -> Seq<u8> {
        seq![self.account_type.spec_tag()] + self.pack_set + self.master
            + spec_u32_to_le_bytes(self.index) + seq![self.probability_type.spec_byte()] + spec_u64_to_le_bytes(self.probability)
            + spec_u32_to_le_bytes(self.minted) + option_u32_bytes(self.max_supply)
    }

    /// The card that bytes hold, if they hold one.
    pub open spec fn decode(bytes: Seq<u8>) -> Result<PackCardView, PackError> {
        if bytes.len() != PACK_CARD_LEN {
            Err(PackError::InvalidAccountData)
        } else if bytes[0] != AccountType::PackCard.spec_tag() {
            Err(PackError::InvalidAccountData)
        } else if DistributionType::spec_from_byte(bytes[69]) is None {
            Err(PackError::InvalidAccountData)
        } else if parse_option_u32(bytes.subrange(82, 87)) is Err {
            Err(PackError::InvalidAccountData)
        } else {
            Ok(
                PackCardView {
                    account_type: AccountType::PackCard,
                    pack_set: bytes.subrange(1, 33),
                    master: bytes.subrange(33, 65),
                    index: spec_u32_from_le_bytes(bytes.subrange(65, 69)),
                    max_supply: parse_option_u32(bytes.subrange(82, 87))->Ok_0,
                    minted: spec_u32_from_le_bytes(bytes.subrange(78, 82)),
                    probability_type: DistributionType::spec_from_byte(bytes[69])->0,
                    probability: spec_u64_from_le_bytes(bytes.subrange(70, 78)),
                },
            )
        }
    }

    /// Whether the value is a card, not blank storage.
    pub open spec fn is_initialized(self) -> bool {
        self.account_type == AccountType::PackCard
    }

    /// Whether the card has reached its maximum supply.
    pub open spec fn is_exhausted(self) -> bool {
        self.max_supply matches Some(m) && self.minted >= m
    }

    /// The card after one more edition has been minted: `NoCardsLeft` where
    /// the card is exhausted, `Overflow` where the count is at its limit.
    pub open spec fn minted_one(self) -> Result<PackCardView, PackError> {
        if self.is_exhausted() {
            Err(PackError::NoCardsLeft)
        } else {
            match spec_increment_u32(self.minted) {
                Err(e) => Err(e),
                Ok(minted) => Ok(PackCardView { minted, ..self }),
            }
        }
    }
}

/// Cards as mathematical values.
pub open spec fn card_views(cards: Seq<PackCard>) -> Seq<PackCardView> {
    cards.map_values(|c: PackCard| c@)
}

/// The indices that cards carry.
pub open spec fn card_indices(cards: Seq<PackCardView>) -> Seq<u32> {
    cards.map_values(|c: PackCardView| c.index)
}

/// Decoding the bytes of a card gives the card back, and those bytes have the
/// record's fixed length.
pub proof fn lemma_pack_card_roundtrip(v: PackCardView)
    requires
        v.wf(),
        v.is_initialized(),
    ensures
        v.encode().len() == PACK_CARD_LEN,
        PackCardView::decode(v.encode()) == Ok::<PackCardView, PackError>(v),
{
    lemma_auto_spec_u32_to_from_le_bytes();
    lemma_auto_spec_u64_to_from_le_bytes();
    lemma_option_u32_roundtrip(v.max_supply);
    let b = v.encode();
    assert(b.len() == 87);
    assert(b[0] == 2u8);
    assert(b.subrange(1, 33) =~= v.pack_set);
    assert(b.subrange(33, 65) =~= v.master);
    assert(b.subrange(65, 69) =~= spec_u32_to_le_bytes(v.index));
    assert(b[69] == v.probability_type.spec_byte());
    assert(b.subrange(70, 78) =~= spec_u64_to_le_bytes(v.probability));
    assert(b.subrange(78, 82) =~= spec_u32_to_le_bytes(v.minted));
    assert(b.subrange(82, 87) =~= option_u32_bytes(v.max_supply));
}

impl PackCard {
    /// The number of bytes of a stored card.
    pub const LEN: usize = 87;

    /// Whether the value is a card, not blank storage.
    pub fn is_initialized(&self) -> (yes: bool)
        ensures
            yes == self@.is_initialized(),
    {
        match self.account_type {
            AccountType::PackCard => true,
            _ => false,
        }
    }

    /// Whether the card has reached its maximum supply.
    pub fn is_exhausted(&self) -> (yes: bool)
        ensures
            yes == self@.is_exhausted(),
    {
        match self.max_supply {
            Some(m) => self.minted >= m,
            None => false,
        }
    }

    /// A card that has just been registered: nothing minted yet.
    pub fn new(
        pack_set: Key,
        master: Key,
        index: u32,
        max_supply: Option<u32>,
        probability_type: DistributionType,
        probability: u64,
    ) -> (card: PackCard)
        ensures
            card@ == (PackCardView {
                account_type: AccountType::PackCard,
                pack_set: pack_set@,
                master: master@,
                index,
                max_supply,
                minted: 0,
                probability_type,
                probability,
            }),
    {
        PackCard {
            account_type: AccountType::PackCard,
            pack_set,
            master,
            index,
            max_supply,
            minted: 0,
            probability_type,
            probability,
        }
    }

    /// Counts one more minted edition, or fails and leaves the card as it
    /// was.
    pub fn mint_one(&mut self) -> (r: Result<(), PackError>)
        ensures
            match r {
                Ok(_) => old(self)@.minted_one() == Ok::<PackCardView, PackError>(final(self)@),
                Err(e) => old(self)@.minted_one() == Err::<PackCardView, PackError>(e)
                    && *final(self) == *old(self),
            },
    {
        if self.is_exhausted() {
            return Err(PackError::NoCardsLeft);
        }
        self.minted = self.minted.error_increment()?;
        Ok(())
    }

    /// The record's bytes.
    pub fn pack(&self) -> (out: Vec<u8>)
        ensures
            out@ == self@.encode(),
    {
        let mut out: Vec<u8> = Vec::new();
        out.push(self.account_type.tag());
        put_key(&mut out, &self.pack_set);
        put_key(&mut out, &self.master);
        put_u32(&mut out, self.index);
        out.push(self.probability_type.byte());
        put_u64(&mut out, self.probability);
        put_u32(&mut out, self.minted);
        put_option_u32(&mut out, self.max_supply);
        assert(out@ =~= self@.encode());
        out
    }

    /// The card stored in `input`, or `InvalidAccountData` where the bytes
    /// hold none.
    pub fn unpack(input: &[u8]) -> (r: Result<PackCard, PackError>)
        ensures
            match r {
                Ok(p) => PackCardView::decode(input@) == Ok::<PackCardView, PackError>(p@),
                Err(e) => PackCardView::decode(input@) == Err::<PackCardView, PackError>(e),
            },
    {
        if input.len() != 87 {
            return Err(PackError::InvalidAccountData);
        }
        if input[0] != AccountType::PackCard.tag() {
            return Err(PackError::InvalidAccountData);
        }
        let probability_type = match DistributionType::from_byte(input[69]) {
            Some(t) => t,
            None => {
                return Err(PackError::InvalidAccountData);
            },
        };
        let max_supply = match read_option_u32(input, 82) {
            Ok(m) => m,
            Err(_) => {
                return Err(PackError::InvalidAccountData);
            },
        };
        Ok(
            PackCard {
                account_type: AccountType::PackCard,
                pack_set: read_key(input, 1),
                master: read_key(input, 33),
                index: read_u32(input, 65),
                max_supply,
                minted: read_u32(input, 78),
                probability_type,
                probability: read_u64(input, 70),
            },
        )
    }
}

} // verus!
