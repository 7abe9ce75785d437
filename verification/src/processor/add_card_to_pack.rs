//! `AddCardToPack`: registers the next card of a pack set.

use vstd::prelude::*;
use crate::account::{ledger, Account, AccountView, Key};
use crate::address::{address_key, card_seeds, find_pack_card_program_address, program_address};
use crate::address::{program_address_key, seeds_view, DerivedAddress};
use crate::cpi::{signers_view, Invocation};
use crate::distribution::{lemma_weight_sum_of_prefix, remaining_weight, total_weight};
use crate::error::PackError;
use crate::instruction::AddCardToPackArgs;
use crate::processor::{card_in, cards_in, load_cards};
use crate::state::pack_card::{card_indices, lemma_pack_card_roundtrip};
use crate::state::pack_card::{PackCard, PackCardView, PACK_CARD_LEN};
use crate::state::pack_set::{cards_gapless, gapless, lemma_pack_set_roundtrip};
use crate::state::pack_set::{PackSet, PackSetView};
use crate::state::{AccountType, PROBABILITY_POOL};
use crate::utils::{assert_owned_by, assert_signer, create_account, create_account_invocation};

verus! {

/// What a successful `AddCardToPack` stores.
pub struct CardRegistration {
    /// The pack set, counting one more card.
    pub set: PackSetView,
    /// The new card.
    pub card: PackCardView,
}

/// What `AddCardToPack` makes of the accounts it is handed, given the
/// address derived for the new card: what to store, or the first failure.
/// The accounts are the pack set, the storage of the new card, the pack
/// set's authority, the collectible template, then every card registered so
/// far in the order of the indices.
///
/// The index in `args` must be the next one and the storage must lie at the
/// derived address, else `InvalidArgument`. The weights of all cards, the
/// new one included, must fit the probability pool, else
/// `ProbabilityPoolExceeded`.
pub open spec fn add_card_outcome_at(
    program_id: Seq<u8>,
    accounts: Seq<AccountView>,
    args: AddCardToPackArgs,
    address: Option<Seq<u8>>,
) -> Result<CardRegistration, PackError> {
    if accounts.len() < 4 {
        Err(PackError::NotEnoughAccountKeys)
    } else if !accounts[2].is_signer {
        Err(PackError::MissingRequiredSignature)
    } else if accounts[0].owner@ != program_id {
        Err(PackError::IllegalOwner)
    } else {
        match PackSetView::decode(accounts[0].data) {
            Err(e) => Err(e),
            Ok(set) => if accounts[2].key@ != set.authority {
                Err(PackError::MissingRequiredSignature)
            } else {
                match set.card_registered(args.index) {
                    Err(e) => Err(e),
                    Ok(counted) => if address != Some(accounts[1].key@) {
                        Err(PackError::InvalidArgument)
                    } else if accounts[1].holds_record() {
                        Err(PackError::AlreadyInitialized)
                    } else if accounts.len() < 4 + set.pack_cards {
                        Err(PackError::NotEnoughAccountKeys)
                    } else {
                        match cards_in(
                            program_id,
                            accounts[0].key@,
                            accounts.subrange(4, 4 + set.pack_cards),
                        ) {
                            Err(e) => Err(e),
                            Ok(cards) => if !gapless(card_indices(cards), set.pack_cards) {
                                Err(PackError::InvalidArgument)
                            } else if total_weight(cards) + args.probability > PROBABILITY_POOL {
                                Err(PackError::ProbabilityPoolExceeded)
                            } else {
                                Ok(
                                    CardRegistration {
                                        set: counted,
                                        card: PackCardView {
                                            account_type: AccountType::PackCard,
                                            pack_set: accounts[0].key@,
                                            master: accounts[3].key@,
                                            index: args.index,
                                            max_supply: args.max_supply,
                                            minted: 0,
                                            probability_type: args.probability_type,
                                            probability: args.probability,
                                        },
                                    },
                                )
                            },
                        }
                    },
                }
            },
        }
    }
}

/// What `AddCardToPack` makes of the accounts it is handed: the new card's
/// address is derived from the pack set's address and the index in `args`.
pub open spec fn add_card_outcome(
    program_id: Seq<u8>,
    accounts: Seq<AccountView>,
    args: AddCardToPackArgs,
) -> Result<CardRegistration, PackError> {
    add_card_outcome_at(
        program_id,
        accounts,
        args,
        program_address_key(card_seeds(accounts[0].key@, args.index), program_id),
    )
}

/// Cards are registered in sequence. On a pack set that is open to
/// registration and handed over by its authority, a card whose index is not
/// the next one is refused with `InvalidArgument`; a card that is accepted
/// carries the next index, and the pack set then counts that many cards.
pub proof fn lemma_add_card_in_sequence(
    program_id: Seq<u8>,
    accounts: Seq<AccountView>,
    args: AddCardToPackArgs,
    set: PackSetView,
)
    requires
        accounts.len() >= 4,
        accounts[2].is_signer,
        accounts[0].owner@ == program_id,
        PackSetView::decode(accounts[0].data) == Ok::<PackSetView, PackError>(set),
        accounts[2].key@ == set.authority,
        set.open_to_registration() is Ok,
        set.pack_cards < u32::MAX,
    ensures
        args.index != set.pack_cards + 1 ==> add_card_outcome(program_id, accounts, args) == Err::<
            CardRegistration,
            PackError,
        >(PackError::InvalidArgument),
        add_card_outcome(program_id, accounts, args) matches Ok(done) ==> args.index
            == set.pack_cards + 1 && done.card.index == args.index && done.set == (PackSetView {
            pack_cards: args.index,
            ..set
        }),
{
}

/// The weights of a pack set's cards never exceed the probability pool: a
/// card is accepted only where the cards registered so far and the new one
/// together fit the pool.
pub proof fn lemma_weights_fit_the_pool(
    program_id: Seq<u8>,
    accounts: Seq<AccountView>,
    args: AddCardToPackArgs,
)
    requires
        add_card_outcome(program_id, accounts, args) is Ok,
    ensures
        ({
            let set = PackSetView::decode(accounts[0].data)->Ok_0;
            let cards = cards_in(
                program_id,
                accounts[0].key@,
                accounts.subrange(4, 4 + set.pack_cards),
            )->Ok_0;
            let done = add_card_outcome(program_id, accounts, args)->Ok_0;
            &&& total_weight(cards.push(done.card)) == total_weight(cards) + args.probability
            &&& total_weight(cards.push(done.card)) <= PROBABILITY_POOL
            &&& gapless(card_indices(cards.push(done.card)), done.set.pack_cards)
        }),
{
    let set = PackSetView::decode(accounts[0].data)->Ok_0;
    let cards = cards_in(program_id, accounts[0].key@, accounts.subrange(4, 4 + set.pack_cards))->Ok_0;
    let done = add_card_outcome(program_id, accounts, args)->Ok_0;
    let all = cards.push(done.card);
    lemma_weight_sum_of_prefix(cards, all, cards.len() as int);
    assert(all[cards.len() as int] == done.card);
    assert(card_indices(all) =~= card_indices(cards).push(done.card.index));
}

/// The accounts that a successful registration leaves behind: the pack
/// set's account holds the pack set with one more card, the second account
/// holds the new card and is owned by the program, and nothing else
/// differs.
pub open spec fn card_stored(
    program_id: Key,
    before: Seq<AccountView>,
    done: CardRegistration,
) -> Seq<AccountView> {
    before.update(0, AccountView { data: done.set.encode(), ..before[0] }).update(
        1,
        AccountView { owner: program_id, data: done.card.encode(), ..before[1] },
    )
}

/// A card that has just been registered reads back as it was written: a
/// card of this pack set with the next index and nothing minted, stored next
/// to the pack set that counts it.
pub proof fn lemma_registered_card_is_stored(
    program_id: Key,
    accounts: Seq<AccountView>,
    args: AddCardToPackArgs,
)
    requires
        add_card_outcome(program_id@, accounts, args) is Ok,
    ensures
        ({
            let done = add_card_outcome(program_id@, accounts, args)->Ok_0;
            let after = card_stored(program_id, accounts, done);
            &&& PackSetView::decode(after[0].data) == Ok::<PackSetView, PackError>(done.set)
            &&& card_in(program_id@, accounts[0].key@, after[1]) == Ok::<PackCardView, PackError>(
                done.card,
            )
            &&& done.card.account_type == AccountType::PackCard
            &&& done.card.minted == 0
            &&& done.card.index == done.set.pack_cards
        }),
{
    let done = add_card_outcome(program_id@, accounts, args)->Ok_0;
    lemma_pack_set_roundtrip(done.set);
    lemma_pack_card_roundtrip(done.card);
}

/// What `add_card_at` leaves behind and hands back. The result of a
/// success is the invocation that allocates the card's storage, funded by
/// the authority with `minimum_balance` and signed for by the address's
/// seeds. On failure nothing differs.
pub open spec fn add_card_at_post(
    program_id: Key,
    before: Seq<AccountView>,
    after: Seq<AccountView>,
    args: AddCardToPackArgs,
    minimum_balance: u64,
    address: Option<DerivedAddress>,
    r: Result<Invocation, PackError>,
) -> bool {
    match r {
        Ok(allocation) => add_card_outcome_at(program_id@, before, args, address_key(address))
            matches Ok(done) && after == card_stored(program_id, before, done) && allocation@
            == create_account_invocation(
            program_id@,
            before[2].key,
            before[1].key,
            PACK_CARD_LEN,
            seq![seeds_view(address->0.signer_seeds@)],
            minimum_balance,
        ),
        Err(e) => add_card_outcome_at(program_id@, before, args, address_key(address)) == Err::<
            CardRegistration,
            PackError,
        >(e) && after == before,
    }
}

/// What `AddCardToPack` leaves behind and hands back. The result of a
/// success is the invocation that allocates the card's storage, funded by
/// the authority with `minimum_balance` and signed for by the seeds of the
/// card's address. On failure nothing differs.
pub open spec fn add_card_post(
    program_id: Key,
    before: Seq<AccountView>,
    after: Seq<AccountView>,
    args: AddCardToPackArgs,
    minimum_balance: u64,
    r: Result<Invocation, PackError>,
) -> bool {
    match r {
        Ok(allocation) => {
            &&& add_card_outcome(program_id@, before, args) matches Ok(done)
            &&& program_address(card_seeds(before[0].key@, args.index), program_id@) matches Some(
                found,
            )
            &&& after == card_stored(program_id, before, done)
            &&& allocation@ == create_account_invocation(
                program_id@,
                before[2].key,
                before[1].key,
                PACK_CARD_LEN,
                seq![card_seeds(before[0].key@, args.index).push(seq![found.1])],
                minimum_balance,
            )
        },
        Err(e) => add_card_outcome(program_id@, before, args) == Err::<
            CardRegistration,
            PackError,
        >(e) && after == before,
    }
}

/// Registers the next card of a pack set at the given address.
pub fn add_card_at(
    program_id: &Key,
    accounts: &mut Vec<Account>,
    args: AddCardToPackArgs,
    minimum_balance: u64,
    address: Option<DerivedAddress>,
) -> (r: Result<Invocation, PackError>)
    ensures
        add_card_at_post(
            *program_id,
            ledger(old(accounts)@),
            ledger(final(accounts)@),
            args,
            minimum_balance,
            address,
            r,
        ),
{
    if accounts.len() < 4 {
        return Err(PackError::NotEnoughAccountKeys);
    }
    assert_signer(&accounts[2])?;
    assert_owned_by(&accounts[0], program_id)?;
    let mut pack_set = PackSet::unpack(accounts[0].data.as_slice())?;
    if !accounts[2].key.equals(&pack_set.authority) {
        return Err(PackError::MissingRequiredSignature);
    }
    let registered = pack_set.pack_cards;
    pack_set.register_card(args.index)?;
    let pack_set_key = accounts[0].key;
    let address = match address {
        Some(a) => a,
        None => {
            return Err(PackError::InvalidArgument);
        },
    };
    if !address.key.equals(&accounts[1].key) {
        return Err(PackError::InvalidArgument);
    }
    if accounts[1].holds_record() {
        return Err(PackError::AlreadyInitialized);
    }
    if accounts.len() - 4 < registered as usize {
        return Err(PackError::NotEnoughAccountKeys);
    }
    let cards = load_cards(program_id, &pack_set_key, accounts, 4, 4 + registered as usize)?;
    if !cards_gapless(&cards, registered) {
        return Err(PackError::InvalidArgument);
    }
    match remaining_weight(&cards) {
        Some(room) => {
            if args.probability > room {
                return Err(PackError::ProbabilityPoolExceeded);
            }
        },
        None => {
            return Err(PackError::ProbabilityPoolExceeded);
        },
    }
    let card = PackCard::new(
        pack_set_key,
        accounts[3].key,
        args.index,
        args.max_supply,
        args.probability_type,
        args.probability,
    );
    let mut signers_seeds: Vec<Vec<Vec<u8>>> = Vec::new();
    signers_seeds.push(address.signer_seeds);
    assert(signers_view(signers_seeds@) =~= seq![seeds_view(address.signer_seeds@)]);
    let allocation = create_account(
        program_id,
        &accounts[2],
        &accounts[1],
        PackCard::LEN,
        signers_seeds,
        minimum_balance,
    );
    let stored_set = accounts[0].with_data(pack_set.pack());
    let stored_card = accounts[1].allocated(*program_id, card.pack());
    accounts.set(0, stored_set);
    accounts.set(1, stored_card);
    assert(ledger(accounts@) =~= ledger(old(accounts)@).update(
        0,
        AccountView { data: pack_set@.encode(), ..old(accounts)@[0]@ },
    ).update(
        1,
        AccountView { owner: *program_id, data: card@.encode(), ..old(accounts)@[1]@ },
    ));
    Ok(allocation)
}

/// Processes `AddCardToPack`. The host invokes the returned allocation
/// before it persists the accounts.
pub fn add_card_to_pack(
    program_id: &Key,
    accounts: &mut Vec<Account>,
    args: AddCardToPackArgs,
    minimum_balance: u64,
) -> (r: Result<Invocation, PackError>)
    ensures
        add_card_post(
            *program_id,
            ledger(old(accounts)@),
            ledger(final(accounts)@),
            args,
            minimum_balance,
            r,
        ),
{
    if accounts.len() < 4 {
        return Err(PackError::NotEnoughAccountKeys);
    }
    let address = find_pack_card_program_address(program_id, &accounts[0].key, args.index);
    add_card_at(program_id, accounts, args, minimum_balance, address)
}

} // verus!
