//! The pack set record: the root of a distribution campaign.

use vstd::prelude::*;
use vstd::bytes::{spec_u32_from_le_bytes, spec_u32_to_le_bytes, lemma_auto_spec_u32_to_from_le_bytes};
use crate::account::Key;
use crate::codec::{bool_byte, put_bool, put_bytes32, put_key, put_u32, read_bytes32, read_key, read_u32};
use crate::error::PackError;
use crate::instruction::InitPackSetArgs;
use crate::math::{spec_increment_u32, SafeMath};
use crate::state::pack_card::{card_indices, card_views, PackCard};
use crate::state::pack_voucher::{voucher_indices, voucher_views, PackVoucher};
use crate::state::{AccountType, PackSetState};

verus! {

/// A pack set as it is stored.
#[derive(Clone, Copy, Debug, PartialEq, Eq)]
pub struct PackSet {
    /// The record's kind. `PackSet` in every stored pack set.
    pub account_type: AccountType,
    /// A fixed-length label.
    pub name: [u8; 32],
    /// The identity that may change and run the pack set.
    pub authority: Key,
    /// The identity that may trigger the minting of editions.
    pub minting_authority: Key,
    /// How many distinct packs are offered.
    pub total_packs: u32,
    /// How many cards have been registered.
    pub pack_cards: u32,
    /// How many vouchers have been registered.
    pub pack_vouchers: u32,
    /// Whether the pack set can still be edited.
    pub mutable: bool,
    /// The lifecycle phase.
    pub pack_state: PackSetState,
}

/// A pack set as a mathematical value: byte arrays are sequences.
pub struct PackSetView {
    pub account_type: AccountType,
    pub name: Seq<u8>,
    pub authority: Seq<u8>,
    pub minting_authority: Seq<u8>,
    pub total_packs: u32,
    pub pack_cards: u32,
    pub pack_vouchers: u32,
    pub mutable: bool,
    pub pack_state: PackSetState,
}

impl View for PackSet {
    type V = PackSetView;

    open spec fn view(&self) -> PackSetView {
        PackSetView {
            account_type: self.account_type,
            name: self.name@,
            authority: self.authority@,
            minting_authority: self.minting_authority@,
            total_packs: self.total_packs,
            pack_cards: self.pack_cards,
            pack_vouchers: self.pack_vouchers,
            mutable: self.mutable,
            pack_state: self.pack_state,
        }
    }
}

/// The number of bytes of a stored pack set.
pub const PACK_SET_LEN: usize = 111;

impl PackSetView {
    /// The three byte fields have their fixed length.
    pub open spec fn wf(self) -> bool {
        &&& self.name.len() == 32
        &&& self.authority.len() == 32
        &&& self.minting_authority.len() == 32
    }

    /// The stored bytes: kind tag, name, authority, minting authority, the
    /// three counters in little-endian order, the mutability flag, the phase.
    pub open spec fn encode(self) -> Seq<u8> {
        seq![self.account_type.spec_tag()] + self.name + self.authority + self.minting_authority
            + spec_u32_to_le_bytes(self.total_packs) + spec_u32_to_le_bytes(self.pack_cards)
            + spec_u32_to_le_bytes(self.pack_vouchers) + seq![bool_byte(self.mutable)]
            + seq![self.pack_state.spec_byte()]
    }

    /// The pack set that bytes hold. Bytes of another length, with another
    /// kind tag, or with a flag or phase byte that stands for nothing, hold
    /// none.
    pub open spec fn decode(bytes: Seq<u8>) -> Result<PackSetView, PackError> {
        if bytes.len() != PACK_SET_LEN {
            Err(PackError::InvalidAccountData)
        } else if bytes[0] != AccountType::PackSet.spec_tag() {
            Err(PackError::InvalidAccountData)
        } else if bytes[109] > 1 {
            Err(PackError::InvalidAccountData)
        } else if PackSetState::spec_from_byte(bytes[110]) is None {
            Err(PackError::InvalidAccountData)
        } else {
            Ok(
                PackSetView {
                    account_type: AccountType::PackSet,
                    name: bytes.subrange(1, 33),
                    authority: bytes.subrange(33, 65),
                    minting_authority: bytes.subrange(65, 97),
                    total_packs: spec_u32_from_le_bytes(bytes.subrange(97, 101)),
                    pack_cards: spec_u32_from_le_bytes(bytes.subrange(101, 105)),
                    pack_vouchers: spec_u32_from_le_bytes(bytes.subrange(105, 109)),
                    mutable: bytes[109] == 1,
                    pack_state: PackSetState::spec_from_byte(bytes[110])->0,
                },
            )
        }
    }

    /// Whether the value is a pack set, not blank storage.
    pub open spec fn is_initialized(self) -> bool {
        self.account_type == AccountType::PackSet
    }

    /// Whether cards and vouchers can still be registered: `ImmutablePackSet`
    /// on an immutable pack set, `WrongPackState` once it has been activated.
    pub open spec fn open_to_registration(self) -> Result<(), PackError> {
        if !self.mutable {
            Err(PackError::ImmutablePackSet)
        } else if self.pack_state != PackSetState::NotActivated {
            Err(PackError::WrongPackState)
        } else {
            Ok(())
        }
    }

    /// The pack set after the card with the given index has been registered.
    /// The index must be the next one, one more than the cards registered so
    /// far; any other is `InvalidArgument`.
    pub open spec fn card_registered(self, index: u32) -> Result<PackSetView, PackError> {
        match self.open_to_registration() {
            Err(e) => Err(e),
            Ok(_) => match spec_increment_u32(self.pack_cards) {
                Err(e) => Err(e),
                Ok(next) => if index != next {
                    Err(PackError::InvalidArgument)
                } else {
                    Ok(PackSetView { pack_cards: next, ..self })
                },
            },
        }
    }

    /// The pack set after one more voucher has been registered.
    pub open spec fn voucher_registered(self) -> Result<PackSetView, PackError> {
        match self.open_to_registration() {
            Err(e) => Err(e),
            Ok(_) => match spec_increment_u32(self.pack_vouchers) {
                Err(e) => Err(e),
                Ok(next) => Ok(PackSetView { pack_vouchers: next, ..self }),
            },
        }
    }

    /// The pack set after the cards with the given indices have been
    /// registered one after the other, or the first failure.
    pub open spec fn cards_registered(self, indices: Seq<u32>) -> Result<PackSetView, PackError>
        decreases indices.len(),
    {
        if indices.len() == 0 {
            Ok(self)
        } else {
            match self.cards_registered(indices.drop_last()) {
                Err(e) => Err(e),
                Ok(set) => set.card_registered(indices.last()),
            }
        }
    }

    /// The activated pack set. Only a pack set that was never activated can
    /// be activated, and only where its registered cards and vouchers are
    /// all there; anything else is `WrongPackState`.
    pub open spec fn activated(self, cards: Seq<u32>, vouchers: Seq<u32>) -> Result<
        PackSetView,
        PackError,
    > {
        if self.pack_state != PackSetState::NotActivated {
            Err(PackError::WrongPackState)
        } else if !gapless(cards, self.pack_cards) || !gapless(vouchers, self.pack_vouchers) {
            Err(PackError::WrongPackState)
        } else {
            Ok(PackSetView { pack_state: PackSetState::Activated, ..self })
        }
    }
}

/// Whether the indices are exactly 1, 2, and so on up to `count`, in this
/// order.
pub open spec fn gapless(indices: Seq<u32>, count: u32) -> bool {
    &&& indices.len() == count
    &&& forall|i: int| 0 <= i < indices.len() ==> #[trigger] indices[i] == i + 1
}

/// Cards registered with the indices 1, 2, and so on up to `n` are all
/// accepted by a fresh, mutable pack set that was never activated, and the
/// pack set then counts `n` cards.
pub proof fn lemma_sequential_registration(set: PackSetView, indices: Seq<u32>)
    requires
        set.mutable,
        set.pack_state == PackSetState::NotActivated,
        set.pack_cards == 0,
        indices.len() <= u32::MAX,
        forall|i: int| 0 <= i < indices.len() ==> #[trigger] indices[i] == i + 1,
    ensures
        set.cards_registered(indices) == Ok::<PackSetView, PackError>(
            PackSetView { pack_cards: indices.len() as u32, ..set },
        ),
    decreases indices.len(),
{
    if indices.len() > 0 {
        lemma_sequential_registration(set, indices.drop_last());
    }
}

/// A card registered out of order is refused: on a pack set that is open to
/// registration and whose counter is not at its limit, every index but the
/// next one is `InvalidArgument`, and the next one is accepted and becomes
/// the count.
pub proof fn lemma_registration_index(set: PackSetView, index: u32)
    requires
        set.open_to_registration() is Ok,
        set.pack_cards < u32::MAX,
    ensures
        index != set.pack_cards + 1 ==> set.card_registered(index) == Err::<
            PackSetView,
            PackError,
        >(PackError::InvalidArgument),
        index == set.pack_cards + 1 ==> set.card_registered(index) == Ok::<PackSetView, PackError>(
            PackSetView { pack_cards: index, ..set },
        ),
{
}

/// Activation succeeds exactly where nothing is missing: a pack set that was
/// never activated is activated if and only if the indices of its cards and
/// of its vouchers run from 1 to the respective count without a gap.
pub proof fn lemma_activation_iff_gapless(set: PackSetView, cards: Seq<u32>, vouchers: Seq<u32>)
    requires
        set.pack_state == PackSetState::NotActivated,
    ensures
        set.activated(cards, vouchers) is Ok <==> gapless(cards, set.pack_cards) && gapless(
            vouchers,
            set.pack_vouchers,
        ),
        set.activated(cards, vouchers) is Ok ==> set.activated(cards, vouchers) == Ok::<
            PackSetView,
            PackError,
        >(PackSetView { pack_state: PackSetState::Activated, ..set }),
        set.activated(cards, vouchers) is Err ==> set.activated(cards, vouchers) == Err::<
            PackSetView,
            PackError,
        >(PackError::WrongPackState),
{
}

/// Decoding the bytes of a pack set gives the pack set back, and those bytes
/// have the record's fixed length.
pub proof fn lemma_pack_set_roundtrip(v: PackSetView)
    requires
        v.wf(),
        v.is_initialized(),
    ensures
        v.encode().len() == PACK_SET_LEN,
        PackSetView::decode(v.encode()) == Ok::<PackSetView, PackError>(v),
{
    lemma_auto_spec_u32_to_from_le_bytes();
    let b = v.encode();
    assert(b.len() == 111);
    assert(b[0] == 1u8);
    assert(b.subrange(1, 33) =~= v.name);
    assert(b.subrange(33, 65) =~= v.authority);
    assert(b.subrange(65, 97) =~= v.minting_authority);
    assert(b.subrange(97, 101) =~= spec_u32_to_le_bytes(v.total_packs));
    assert(b.subrange(101, 105) =~= spec_u32_to_le_bytes(v.pack_cards));
    assert(b.subrange(105, 109) =~= spec_u32_to_le_bytes(v.pack_vouchers));
    assert(b[109] == bool_byte(v.mutable));
    assert(b[110] == v.pack_state.spec_byte());
}

impl PackSet {
    /// The number of bytes of a stored pack set.
    pub const LEN: usize = 111;

    /// Whether the value is a pack set, not blank storage.
    pub fn is_initialized(&self) -> (yes: bool)
        ensures
            yes == self@.is_initialized(),
    {
        match self.account_type {
            AccountType::PackSet => true,
            _ => false,
        }
    }

    /// A pack set that has just been created: not activated, nothing
    /// registered.
    pub fn init(authority: Key, minting_authority: Key, args: InitPackSetArgs) -> (set: PackSet)
        ensures
            set@ == (PackSetView {
                account_type: AccountType::PackSet,
                name: args.name@,
                authority: authority@,
                minting_authority: minting_authority@,
                total_packs: args.total_packs,
                pack_cards: 0,
                pack_vouchers: 0,
                mutable: args.mutable,
                pack_state: PackSetState::NotActivated,
            }),
    {
        PackSet {
            account_type: AccountType::PackSet,
            name: args.name,
            authority,
            minting_authority,
            total_packs: args.total_packs,
            pack_cards: 0,
            pack_vouchers: 0,
            mutable: args.mutable,
            pack_state: PackSetState::NotActivated,
        }
    }

    /// Fails unless cards and vouchers can still be registered.
    pub fn assert_able_to_edit(&self) -> (r: Result<(), PackError>)
        ensures
            r == self@.open_to_registration(),
    {
        if !self.mutable {
            return Err(PackError::ImmutablePackSet);
        }
        if self.pack_state != PackSetState::NotActivated {
            return Err(PackError::WrongPackState);
        }
        Ok(())
    }

    /// Counts the card with the given index, or fails and leaves the pack
    /// set as it was.
    pub fn register_card(&mut self, index: u32) -> (r: Result<(), PackError>)
        ensures
            match r {
                Ok(_) => old(self)@.card_registered(index) == Ok::<PackSetView, PackError>(
                    final(self)@,
                ),
                Err(e) => old(self)@.card_registered(index) == Err::<PackSetView, PackError>(e)
                    && *final(self) == *old(self),
            },
    {
        self.assert_able_to_edit()?;
        let next = self.pack_cards.error_increment()?;
        if index != next {
            return Err(PackError::InvalidArgument);
        }
        self.pack_cards = next;
        Ok(())
    }

    /// Counts one more voucher and gives its index, or fails and leaves the
    /// pack set as it was.
    pub fn register_voucher(&mut self) -> (r: Result<u32, PackError>)
        ensures
            match r {
                Ok(index) => old(self)@.voucher_registered() == Ok::<PackSetView, PackError>(
                    final(self)@,
                ) && index == final(self).pack_vouchers,
                Err(e) => old(self)@.voucher_registered() == Err::<PackSetView, PackError>(e)
                    && *final(self) == *old(self),
            },
    {
        self.assert_able_to_edit()?;
        let next = self.pack_vouchers.error_increment()?;
        self.pack_vouchers = next;
        Ok(next)
    }

    /// Activates the pack set given its registered cards and vouchers, or
    /// fails and leaves it as it was.
    pub fn activate(&mut self, cards: &Vec<PackCard>, vouchers: &Vec<PackVoucher>) -> (r: Result<
        (),
        PackError,
    >)
        ensures
            match r {
                Ok(_) => old(self)@.activated(
                    card_indices(card_views(cards@)),
                    voucher_indices(voucher_views(vouchers@)),
                ) == Ok::<PackSetView, PackError>(final(self)@),
                Err(e) => old(self)@.activated(
                    card_indices(card_views(cards@)),
                    voucher_indices(voucher_views(vouchers@)),
                ) == Err::<PackSetView, PackError>(e) && *final(self) == *old(self),
            },
    {
        if self.pack_state != PackSetState::NotActivated {
            return Err(PackError::WrongPackState);
        }
        if !cards_gapless(cards, self.pack_cards) || !vouchers_gapless(
            vouchers,
            self.pack_vouchers,
        ) {
            return Err(PackError::WrongPackState);
        }
        self.pack_state = PackSetState::Activated;
        Ok(())
    }

    /// The record's bytes.
    pub fn pack(&self) -> (out: Vec<u8>)
        ensures
            out@ == self@.encode(),
    {
        let mut out: Vec<u8> = Vec::new();
        out.push(self.account_type.tag());
        put_bytes32(&mut out, &self.name);
        put_key(&mut out, &self.authority);
        put_key(&mut out, &self.minting_authority);
        put_u32(&mut out, self.total_packs);
        put_u32(&mut out, self.pack_cards);
        put_u32(&mut out, self.pack_vouchers);
        put_bool(&mut out, self.mutable);
        out.push(self.pack_state.byte());
        assert(out@ =~= self@.encode());
        out
    }

    /// The pack set stored in `input`, or `InvalidAccountData` where the
    /// bytes hold none.
    pub fn unpack(input: &[u8]) -> (r: Result<PackSet, PackError>)
        ensures
            match r {
                Ok(p) => PackSetView::decode(input@) == Ok::<PackSetView, PackError>(p@),
                Err(e) => PackSetView::decode(input@) == Err::<PackSetView, PackError>(e),
            },
    {
        if input.len() != 111 {
            return Err(PackError::InvalidAccountData);
        }
        if input[0] != AccountType::PackSet.tag() {
            return Err(PackError::InvalidAccountData);
        }
        if input[109] > 1 {
            return Err(PackError::InvalidAccountData);
        }
        let pack_state = match PackSetState::from_byte(input[110]) {
            Some(s) => s,
            None => {
                return Err(PackError::InvalidAccountData);
            },
        };
        Ok(
            PackSet {
                account_type: AccountType::PackSet,
                name: read_bytes32(input, 1),
                authority: read_key(input, 33),
                minting_authority: read_key(input, 65),
                total_packs: read_u32(input, 97),
                pack_cards: read_u32(input, 101),
                pack_vouchers: read_u32(input, 105),
                mutable: input[109] == 1,
                pack_state,
            },
        )
    }
}

/// A pack set only moves forward. Activation starts from a pack set that was
/// never activated, so an activated or a deactivated pack set is never
/// activated again, whatever records it is handed; and registration leaves
/// the phase as it is.
pub proof fn lemma_phase_only_moves_forward(
    set: PackSetView,
    cards: Seq<u32>,
    vouchers: Seq<u32>,
    index: u32,
)
    ensures
        set.pack_state != PackSetState::NotActivated ==> set.activated(cards, vouchers) == Err::<
            PackSetView,
            PackError,
        >(PackError::WrongPackState),
        set.card_registered(index) matches Ok(after) ==> after.pack_state == set.pack_state
            && set.pack_state == PackSetState::NotActivated,
        set.voucher_registered() matches Ok(after) ==> after.pack_state == set.pack_state
            && set.pack_state == PackSetState::NotActivated,
{
}

/// Whether the cards carry the indices 1, 2, and so on up to `count`.
pub fn cards_gapless(cards: &Vec<PackCard>, count: u32) -> (yes: bool)
    ensures
        yes == gapless(card_indices(card_views(cards@)), count),
{
    let ghost indices = card_indices(card_views(cards@));
    if cards.len() > u32::MAX as usize || cards.len() as u32 != count {
        return false;
    }
    let mut i: usize = 0;
    while i < cards.len()
        invariant
            i <= cards@.len() == count,
            indices == card_indices(card_views(cards@)),
            forall|j: int| 0 <= j < i ==> #[trigger] indices[j] == j + 1,
        decreases cards@.len() - i,
    {
        assert(indices[i as int] == cards@[i as int].index);
        if cards[i].index as usize != i + 1 {
            return false;
        }
        i = i + 1;
    }
    true
}

/// Whether the vouchers carry the indices 1, 2, and so on up to `count`.
pub fn vouchers_gapless(vouchers: &Vec<PackVoucher>, count: u32) -> (yes: bool)
    ensures
        yes == gapless(voucher_indices(voucher_views(vouchers@)), count),
{
    let ghost indices = voucher_indices(voucher_views(vouchers@));
    if vouchers.len() > u32::MAX as usize || vouchers.len() as u32 != count {
        return false;
    }
    let mut i: usize = 0;
    while i < vouchers.len()
        invariant
            i <= vouchers@.len() == count,
            indices == voucher_indices(voucher_views(vouchers@)),
            forall|j: int| 0 <= j < i ==> #[trigger] indices[j] == j + 1,
        decreases vouchers@.len() - i,
    {
        assert(indices[i as int] == vouchers@[i as int].index);
        if vouchers[i].index as usize != i + 1 {
            return false;
        }
        i = i + 1;
    }
    true
}

} // verus!
