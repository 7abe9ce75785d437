//! `Activate`: takes a pack set live.

use vstd::prelude::*;
use crate::account::{ledger, Account, AccountView, Key};
use crate::error::PackError;
use crate::processor::{cards_in, load_cards, load_vouchers, vouchers_in};
use crate::state::pack_card::card_indices;
use crate::state::pack_set::{PackSet, PackSetView};
use crate::state::pack_voucher::voucher_indices;
use crate::state::PackSetState;
use crate::utils::{assert_owned_by, assert_signer};

verus! {

/// What `Activate` makes of the accounts it is handed: the pack set to
/// store, or the first failure. The accounts are the pack set, its
/// authority, then every registered card in the order of the indices, then
/// every registered voucher in the order of the indices. A pack set that is
/// handed more or fewer records than it has registered, or records whose
/// indices leave a gap, is not activated: `WrongPackState`.
pub open spec fn activate_outcome(program_id: Seq<u8>, accounts: Seq<AccountView>) -> Result<
    PackSetView,
    PackError,
> {
    if accounts.len() < 2 {
        Err(PackError::NotEnoughAccountKeys)
    } else if !accounts[1].is_signer {
        Err(PackError::MissingRequiredSignature)
    } else if accounts[0].owner@ != program_id {
        Err(PackError::IllegalOwner)
    } else {
        match PackSetView::decode(accounts[0].data) {
            Err(e) => Err(e),
            Ok(set) => if accounts[1].key@ != set.authority {
                Err(PackError::MissingRequiredSignature)
            } else if set.pack_state != PackSetState::NotActivated {
                Err(PackError::WrongPackState)
            } else if accounts.len() - 2 != set.pack_cards + set.pack_vouchers {
                Err(PackError::WrongPackState)
            } else {
                match cards_in(
                    program_id,
                    accounts[0].key@,
                    accounts.subrange(2, 2 + set.pack_cards),
                ) {
                    Err(e) => Err(e),
                    Ok(cards) => match vouchers_in(
                        program_id,
                        accounts[0].key@,
                        accounts.subrange(2 + set.pack_cards, accounts.len() as int),
                    ) {
                        Err(e) => Err(e),
                        Ok(vouchers) => set.activated(
                            card_indices(cards),
                            voucher_indices(vouchers),
                        ),
                    },
                }
            },
        }
    }
}

/// What `Activate` leaves behind: on success the pack set's account holds
/// the activated pack set and nothing else differs; on failure nothing
/// differs.
pub open spec fn activate_post(
    program_id: Seq<u8>,
    before: Seq<AccountView>,
    after: Seq<AccountView>,
    r: Result<(), PackError>,
) -> bool {
    match r {
        Ok(_) => activate_outcome(program_id, before) matches Ok(set) && after == before.update(
            0,
            AccountView { data: set.encode(), ..before[0] },
        ),
        Err(e) => activate_outcome(program_id, before) == Err::<PackSetView, PackError>(e)
            && after == before,
    }
}

/// Processes `Activate`.
pub fn activate_pack(program_id: &Key, accounts: &mut Vec<Account>) -> (r: Result<(), PackError>)
    ensures
        activate_post(program_id@, ledger(old(accounts)@), ledger(final(accounts)@), r),
{
    if accounts.len() < 2 {
        return Err(PackError::NotEnoughAccountKeys);
    }
    assert_signer(&accounts[1])?;
    assert_owned_by(&accounts[0], program_id)?;
    let mut pack_set = PackSet::unpack(accounts[0].data.as_slice())?;
    if !accounts[1].key.equals(&pack_set.authority) {
        return Err(PackError::MissingRequiredSignature);
    }
    if pack_set.pack_state != PackSetState::NotActivated {
        return Err(PackError::WrongPackState);
    }
    let records: u64 = (accounts.len() - 2) as u64;
    if records != pack_set.pack_cards as u64 + pack_set.pack_vouchers as u64 {
        return Err(PackError::WrongPackState);
    }
    let pack_set_key = accounts[0].key;
    let split: usize = 2 + pack_set.pack_cards as usize;
    let cards = load_cards(program_id, &pack_set_key, accounts, 2, split)?;
    let vouchers = load_vouchers(program_id, &pack_set_key, accounts, split, accounts.len())?;
    pack_set.activate(&cards, &vouchers)?;
    let stored = accounts[0].with_data(pack_set.pack());
    accounts.set(0, stored);
    assert(ledger(accounts@) =~= ledger(old(accounts)@).update(
        0,
        AccountView { data: pack_set@.encode(), ..old(accounts)@[0]@ },
    ));
    Ok(())
}

} // verus!
