//! `InitPack`: creates a pack set.

use vstd::prelude::*;
use crate::account::{ledger, Account, AccountView, Key};
use crate::error::PackError;
use crate::instruction::InitPackSetArgs;
use crate::state::pack_set::{lemma_pack_set_roundtrip, PackSet, PackSetView, PACK_SET_LEN};
use crate::state::{AccountType, PackSetState};
use crate::utils::{assert_owned_by, assert_rent_exempt, assert_signer};

verus! {

/// What `InitPack` makes of the accounts it is handed: the pack set to
/// store, or the first failure. The accounts are the storage of the pack
/// set, its authority, and its minting authority. `minimum_balance` is the
/// balance that keeps a pack set's storage persisted.
pub open spec fn init_pack_outcome(
    program_id: Seq<u8>,
    accounts: Seq<AccountView>,
    args: InitPackSetArgs,
    minimum_balance: u64,
) -> Result<PackSetView, PackError> {
    if accounts.len() < 3 {
        Err(PackError::NotEnoughAccountKeys)
    } else if !accounts[1].is_signer {
        Err(PackError::MissingRequiredSignature)
    } else if accounts[0].owner@ != program_id {
        Err(PackError::IllegalOwner)
    } else if accounts[0].lamports < minimum_balance {
        Err(PackError::NotRentExempt)
    } else if PackSetView::decode(accounts[0].data) is Ok {
        Err(PackError::AlreadyInitialized)
    } else if accounts[0].data.len() != PACK_SET_LEN {
        Err(PackError::InvalidAccountData)
    } else {
        Ok(
            PackSetView {
                account_type: AccountType::PackSet,
                name: args.name@,
                authority: accounts[1].key@,
                minting_authority: accounts[2].key@,
                total_packs: args.total_packs,
                pack_cards: 0,
                pack_vouchers: 0,
                mutable: args.mutable,
                pack_state: PackSetState::NotActivated,
            },
        )
    }
}

/// A pack set that has just been created reads back as it was written: not
/// activated, nothing registered, with the authority that signed. A second
/// `InitPack` on the same storage fails with `AlreadyInitialized`.
pub proof fn lemma_init_pack_is_stored(
    program_id: Seq<u8>,
    accounts: Seq<AccountView>,
    args: InitPackSetArgs,
    minimum_balance: u64,
)
    requires
        init_pack_outcome(program_id, accounts, args, minimum_balance) is Ok,
    ensures
        ({
            let set = init_pack_outcome(program_id, accounts, args, minimum_balance)->Ok_0;
            let after = accounts.update(0, AccountView { data: set.encode(), ..accounts[0] });
            &&& PackSetView::decode(after[0].data) == Ok::<PackSetView, PackError>(set)
            &&& set.pack_state == PackSetState::NotActivated
            &&& set.pack_cards == 0
            &&& set.pack_vouchers == 0
            &&& set.authority == accounts[1].key@
            &&& init_pack_outcome(program_id, after, args, minimum_balance) == Err::<
                PackSetView,
                PackError,
            >(PackError::AlreadyInitialized)
        }),
{
    let set = init_pack_outcome(program_id, accounts, args, minimum_balance)->Ok_0;
    lemma_pack_set_roundtrip(set);
}

/// What `InitPack` leaves behind: on success the first account holds the
/// new pack set and nothing else differs; on failure nothing differs.
pub open spec fn init_pack_post(
    program_id: Seq<u8>,
    before: Seq<AccountView>,
    after: Seq<AccountView>,
    args: InitPackSetArgs,
    minimum_balance: u64,
    r: Result<(), PackError>,
) -> bool {
    match r {
        Ok(_) => init_pack_outcome(program_id, before, args, minimum_balance) matches Ok(set)
            && after == before.update(0, AccountView { data: set.encode(), ..before[0] }),
        Err(e) => init_pack_outcome(program_id, before, args, minimum_balance) == Err::<
            PackSetView,
            PackError,
        >(e) && after == before,
    }
}

/// Processes `InitPack`.
pub fn init_pack(
    program_id: &Key,
    accounts: &mut Vec<Account>,
    args: InitPackSetArgs,
    minimum_balance: u64,
) -> (r: Result<(), PackError>)
    ensures
        init_pack_post(
            program_id@,
            ledger(old(accounts)@),
            ledger(final(accounts)@),
            args,
            minimum_balance,
            r,
        ),
{
    if accounts.len() < 3 {
        return Err(PackError::NotEnoughAccountKeys);
    }
    assert_signer(&accounts[1])?;
    assert_owned_by(&accounts[0], program_id)?;
    assert_rent_exempt(minimum_balance, &accounts[0])?;
    if PackSet::unpack(accounts[0].data.as_slice()).is_ok() {
        return Err(PackError::AlreadyInitialized);
    }
    if accounts[0].data.len() != PackSet::LEN {
        return Err(PackError::InvalidAccountData);
    }
    let pack_set = PackSet::init(accounts[1].key, accounts[2].key, args);
    let stored = accounts[0].with_data(pack_set.pack());
    accounts.set(0, stored);
    assert(ledger(accounts@) =~= ledger(old(accounts)@).update(
        0,
        AccountView { data: pack_set@.encode(), ..old(accounts)@[0]@ },
    ));
    Ok(())
}

} // verus!
