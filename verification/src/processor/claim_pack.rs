//! `ClaimPack`: selects a card for a holder whose vouchers are proven, counts
//! the edition, and closes the claim.

use vstd::prelude::*;
use crate::account::{ledger, Account, AccountView, Key};
use crate::distribution::{lemma_selection_has_supply, resolution, resolve_card};
use crate::error::PackError;
use crate::processor::{cards_in, lemma_cards_in_len, load_cards, load_voucher, voucher_in};
use crate::state::pack_card::{card_indices, card_views, PackCardView};
use crate::state::pack_set::{cards_gapless, gapless, PackSet, PackSetView};
use crate::state::proving_process::{ProvingProcess, ProvingProcessView};
use crate::state::PackSetState;
use crate::utils::{assert_owned_by, assert_signer, transfer};

verus! {

/// What a successful `ClaimPack` settles.
pub struct Claim {
    /// The position of the selected card among the pack set's cards.
    pub position: int,
    /// The selected card, counting one more minted edition.
    pub card: PackCardView,
    /// The holder's balance once the claim's balance has been added to it.
    pub holder_lamports: u64,
}

/// What `ClaimPack` makes of the accounts it is handed: what it settles, or
/// the first failure. The accounts are the pack set, the holder's claim,
/// the holder, the minting authority, the voucher record of the claim, then
/// every card of the pack set in the order of the indices.
///
/// The minting authority must sign and be the one the pack set names, else
/// `InvalidArgument`. The pack set must be active. The claim must be
/// complete, else `WrongProvingState`.
pub open spec fn claim_pack_outcome(program_id: Seq<u8>, accounts: Seq<AccountView>) -> Result<
    Claim,
    PackError,
> {
    if accounts.len() < 5 {
        Err(PackError::NotEnoughAccountKeys)
    } else if !accounts[3].is_signer {
        Err(PackError::MissingRequiredSignature)
    } else if accounts[0].owner@ != program_id {
        Err(PackError::IllegalOwner)
    } else {
        match PackSetView::decode(accounts[0].data) {
            Err(e) => Err(e),
            Ok(set) => if accounts[3].key@ != set.minting_authority {
                Err(PackError::InvalidArgument)
            } else if set.pack_state != PackSetState::Activated {
                Err(PackError::WrongPackState)
            } else if accounts[1].owner@ != program_id {
                Err(PackError::IllegalOwner)
            } else {
                match ProvingProcessView::decode(accounts[1].data) {
                    Err(e) => Err(e),
                    Ok(process) => if process.pack_set != accounts[0].key@ || process.holder
                        != accounts[2].key@ {
                        Err(PackError::InvalidArgument)
                    } else {
                        match voucher_in(program_id, accounts[0].key@, accounts[4]) {
                            Err(e) => Err(e),
                            Ok(voucher) => if accounts[4].key@ != process.voucher {
                                Err(PackError::InvalidArgument)
                            } else if !process.is_complete(voucher.number_to_open) {
                                Err(PackError::WrongProvingState)
                            } else if accounts.len() < 5 + set.pack_cards {
                                Err(PackError::NotEnoughAccountKeys)
                            } else {
                                match cards_in(
                                    program_id,
                                    accounts[0].key@,
                                    accounts.subrange(5, 5 + set.pack_cards),
                                ) {
                                    Err(e) => Err(e),
                                    Ok(cards) => settlement(accounts, set, process, cards),
                                }
                            },
                        }
                    },
                }
            },
        }
    }
}

/// What a complete claim settles once the cards are known: the card that the
/// claim resolves to, counted once more, and the holder's new balance.
/// `InvalidArgument` where the cards are not all there in order,
/// `NoCardsLeft` where every card is exhausted, `Overflow` where a counter
/// or the holder's balance would leave its range.
pub open spec fn settlement(
    accounts: Seq<AccountView>,
    set: PackSetView,
    process: ProvingProcessView,
    cards: Seq<PackCardView>,
) -> Result<Claim, PackError> {
    if !gapless(card_indices(cards), set.pack_cards) {
        Err(PackError::InvalidArgument)
    } else {
        match resolution(cards, process.seed, process.selected_card) {
            None => Err(PackError::NoCardsLeft),
            Some(position) => match cards[position].minted_one() {
                Err(e) => Err(e),
                Ok(card) => if accounts[2].lamports + accounts[1].lamports > u64::MAX {
                    Err(PackError::Overflow)
                } else {
                    Ok(
                        Claim {
                            position,
                            card,
                            holder_lamports: (accounts[2].lamports + accounts[1].lamports) as u64,
                        },
                    )
                },
            },
        }
    }
}

/// The edition that the host has minted for a settled claim.
#[derive(Clone, Copy, Debug, PartialEq, Eq)]
pub struct MintRequest {
    /// The index of the selected card.
    pub card_index: u32,
    /// The collectible template to print the edition from.
    pub master: Key,
    /// The holder who receives the edition.
    pub holder: Key,
}

/// What `ClaimPack` leaves behind and hands back.
///
/// On success the selected card's account holds the card with one more
/// minted edition; the claim is closed, its storage emptied and its balance
/// moved to the holder; nothing else differs. The result names the edition
/// to mint. On failure nothing differs, so the claim can be made again.
pub open spec fn claim_pack_post(
    program_id: Seq<u8>,
    before: Seq<AccountView>,
    after: Seq<AccountView>,
    r: Result<MintRequest, PackError>,
) -> bool {
    match r {
        Ok(request) => claim_pack_outcome(program_id, before) matches Ok(claim) && after
            == before.update(
            5 + claim.position,
            AccountView { data: claim.card.encode(), ..before[5 + claim.position] },
        ).update(1, AccountView { lamports: 0, data: Seq::<u8>::empty(), ..before[1] }).update(
            2,
            AccountView { lamports: claim.holder_lamports, ..before[2] },
        ) && request.card_index == claim.card.index && request.master@ == claim.card.master
            && request.holder == before[2].key,
        Err(e) => claim_pack_outcome(program_id, before) == Err::<Claim, PackError>(e) && after
            == before,
    }
}

/// A claim is settled once. On the accounts that a successful `ClaimPack`
/// leaves behind, `ClaimPack` fails: the claim's storage is empty and holds
/// no claim any more.
pub proof fn lemma_claim_settles_once(program_id: Seq<u8>, accounts: Seq<AccountView>)
    requires
        claim_pack_outcome(program_id, accounts) is Ok,
    ensures
        ({
            let claim = claim_pack_outcome(program_id, accounts)->Ok_0;
            let after = accounts.update(
                5 + claim.position,
                AccountView { data: claim.card.encode(), ..accounts[5 + claim.position] },
            ).update(
                1,
                AccountView { lamports: 0, data: Seq::<u8>::empty(), ..accounts[1] },
            ).update(2, AccountView { lamports: claim.holder_lamports, ..accounts[2] });
            claim_pack_outcome(program_id, after) == Err::<Claim, PackError>(
                PackError::InvalidAccountData,
            )
        }),
{
    let set = PackSetView::decode(accounts[0].data)->Ok_0;
    let process = ProvingProcessView::decode(accounts[1].data)->Ok_0;
    let cards = cards_in(program_id, accounts[0].key@, accounts.subrange(5, 5 + set.pack_cards))->Ok_0;
    lemma_cards_in_len(program_id, accounts[0].key@, accounts.subrange(5, 5 + set.pack_cards));
    lemma_selection_has_supply(cards, process.seed);
}

/// The selected card is one of the cards, has supply left before the claim,
/// and is counted exactly once by it.
pub proof fn lemma_claim_counts_one_edition(program_id: Seq<u8>, accounts: Seq<AccountView>)
    requires
        claim_pack_outcome(program_id, accounts) is Ok,
    ensures
        ({
            let claim = claim_pack_outcome(program_id, accounts)->Ok_0;
            let set = PackSetView::decode(accounts[0].data)->Ok_0;
            let cards = cards_in(
                program_id,
                accounts[0].key@,
                accounts.subrange(5, 5 + set.pack_cards),
            )->Ok_0;
            &&& 0 <= claim.position < set.pack_cards
            &&& cards.len() == set.pack_cards
            &&& !cards[claim.position].is_exhausted()
            &&& claim.card == (PackCardView {
                minted: (cards[claim.position].minted + 1) as u32,
                ..cards[claim.position]
            })
            &&& claim.card.index == claim.position + 1
        }),
{
    let set = PackSetView::decode(accounts[0].data)->Ok_0;
    let process = ProvingProcessView::decode(accounts[1].data)->Ok_0;
    let cards = cards_in(program_id, accounts[0].key@, accounts.subrange(5, 5 + set.pack_cards))->Ok_0;
    lemma_cards_in_len(program_id, accounts[0].key@, accounts.subrange(5, 5 + set.pack_cards));
    lemma_selection_has_supply(cards, process.seed);
    assert(card_indices(cards)[claim_pack_outcome(program_id, accounts)->Ok_0.position]
        == cards[claim_pack_outcome(program_id, accounts)->Ok_0.position].index);
}

/// Processes `ClaimPack`.
pub fn claim_pack(program_id: &Key, accounts: &mut Vec<Account>) -> (r: Result<
    MintRequest,
    PackError,
>)
    ensures
        claim_pack_post(program_id@, ledger(old(accounts)@), ledger(final(accounts)@), r),
{
    if accounts.len() < 5 {
        return Err(PackError::NotEnoughAccountKeys);
    }
    assert_signer(&accounts[3])?;
    assert_owned_by(&accounts[0], program_id)?;
    let pack_set = PackSet::unpack(accounts[0].data.as_slice())?;
    if !accounts[3].key.equals(&pack_set.minting_authority) {
        return Err(PackError::InvalidArgument);
    }
    if pack_set.pack_state != PackSetState::Activated {
        return Err(PackError::WrongPackState);
    }
    assert_owned_by(&accounts[1], program_id)?;
    let process = ProvingProcess::unpack(accounts[1].data.as_slice())?;
    let pack_set_key = accounts[0].key;
    let holder_key = accounts[2].key;
    if !process.pack_set.equals(&pack_set_key) || !process.holder.equals(&holder_key) {
        return Err(PackError::InvalidArgument);
    }
    let voucher = load_voucher(program_id, &pack_set_key, &accounts[4])?;
    if !accounts[4].key.equals(&process.voucher) {
        return Err(PackError::InvalidArgument);
    }
    if !process.is_complete(voucher.number_to_open) {
        return Err(PackError::WrongProvingState);
    }
    if accounts.len() - 5 < pack_set.pack_cards as usize {
        return Err(PackError::NotEnoughAccountKeys);
    }
    let cards = load_cards(
        program_id,
        &pack_set_key,
        accounts,
        5,
        5 + pack_set.pack_cards as usize,
    )?;
    if !cards_gapless(&cards, pack_set.pack_cards) {
        return Err(PackError::InvalidArgument);
    }
    let position = resolve_card(&cards, process.seed, process.selected_card)?;
    let mut card = cards[position];
    assert(card_views(cards@)[position as int] == card@);
    card.mint_one()?;
    let stored_card = accounts[5 + position].with_data(card.pack());
    let mut closed = accounts[1].with_data(Vec::new());
    let mut paid = accounts[2].with_data(copy_bytes(accounts[2].data.as_slice()));
    transfer(&mut closed, &mut paid)?;
    accounts.set(5 + position, stored_card);
    accounts.set(1, closed);
    accounts.set(2, paid);
    assert(ledger(accounts@) =~= ledger(old(accounts)@).update(
        5 + position,
        AccountView { data: card@.encode(), ..old(accounts)@[5 + position]@ },
    ).update(
        1,
        AccountView { lamports: 0, data: Seq::<u8>::empty(), ..old(accounts)@[1]@ },
    ).update(2, AccountView { lamports: paid.lamports, ..old(accounts)@[2]@ }));
    Ok(MintRequest { card_index: card.index, master: card.master, holder: holder_key })
}

/// A copy of the bytes.
fn copy_bytes(bytes: &[u8]) -> (out: Vec<u8>)
    ensures
        out@ == bytes@,
{
    let mut out: Vec<u8> = Vec::new();
    out.extend_from_slice(bytes);
    out
}

} // verus!
