//! `Deactivate`: closes a live pack set for good.

use vstd::prelude::*;
use crate::account::{ledger, Account, AccountView, Key};
use crate::error::PackError;
use crate::state::pack_set::{lemma_pack_set_roundtrip, PackSet, PackSetView};
use crate::state::PackSetState;
use crate::utils::assert_signer;

verus! {

/// What `Deactivate` makes of the accounts it is handed: the pack set to
/// store, or the first failure. The accounts are the pack set, then its
/// authority. Only an activated pack set can be deactivated.
pub open spec fn deactivate_outcome(accounts: Seq<AccountView>) -> Result<PackSetView, PackError> {
    if accounts.len() < 2 {
        Err(PackError::NotEnoughAccountKeys)
    } else if !accounts[1].is_signer {
        Err(PackError::MissingRequiredSignature)
    } else {
        match PackSetView::decode(accounts[0].data) {
            Err(e) => Err(e),
            Ok(set) => if accounts[1].key@ != set.authority {
                Err(PackError::MissingRequiredSignature)
            } else if set.pack_state != PackSetState::Activated {
                Err(PackError::PackAlreadyDeactivated)
            } else {
                Ok(PackSetView { pack_state: PackSetState::Deactivated, ..set })
            },
        }
    }
}

/// What `Deactivate` leaves behind: on success the pack set's account holds
/// the deactivated pack set and nothing else differs; on failure nothing
/// differs.
pub open spec fn deactivate_post(
    before: Seq<AccountView>,
    after: Seq<AccountView>,
    r: Result<(), PackError>,
) -> bool {
    match r {
        Ok(_) => deactivate_outcome(before) matches Ok(set) && after == before.update(
            0,
            AccountView { data: set.encode(), ..before[0] },
        ),
        Err(e) => deactivate_outcome(before) == Err::<PackSetView, PackError>(e) && after
            == before,
    }
}

/// Processes `Deactivate`.
pub fn deactivate_pack(_program_id: &Key, accounts: &mut Vec<Account>) -> (r: Result<
    (),
    PackError,
>)
    ensures
        deactivate_post(ledger(old(accounts)@), ledger(final(accounts)@), r),
{
    if accounts.len() < 2 {
        return Err(PackError::NotEnoughAccountKeys);
    }
    assert_signer(&accounts[1])?;
    let mut pack_set = PackSet::unpack(accounts[0].data.as_slice())?;
    if !accounts[1].key.equals(&pack_set.authority) {
        return Err(PackError::MissingRequiredSignature);
    }
    if pack_set.pack_state == PackSetState::NotActivated || pack_set.pack_state
        == PackSetState::Deactivated {
        return Err(PackError::PackAlreadyDeactivated);
    }
    pack_set.pack_state = PackSetState::Deactivated;
    let stored = accounts[0].with_data(pack_set.pack());
    accounts.set(0, stored);
    assert(ledger(accounts@) =~= ledger(old(accounts)@).update(
        0,
        AccountView { data: pack_set@.encode(), ..old(accounts)@[0]@ },
    ));
    Ok(())
}

/// Deactivation happens once. Where `Deactivate` succeeds on some accounts, it
/// fails with `PackAlreadyDeactivated` on the accounts it leaves behind.
pub proof fn lemma_deactivate_twice_fails(accounts: Seq<AccountView>)
    requires
        deactivate_outcome(accounts) is Ok,
    ensures
        deactivate_outcome(
            accounts.update(
                0,
                AccountView { data: deactivate_outcome(accounts)->Ok_0.encode(), ..accounts[0] },
            ),
        ) == Err::<PackSetView, PackError>(PackError::PackAlreadyDeactivated),
{
    let set = deactivate_outcome(accounts)->Ok_0;
    assert(set.wf());
    lemma_pack_set_roundtrip(set);
}

/// A pack set that was never activated cannot be deactivated: with the
/// authority's signature in order, `Deactivate` fails with
/// `PackAlreadyDeactivated`, as it does on a deactivated pack set.
pub proof fn lemma_deactivate_needs_activated(accounts: Seq<AccountView>, set: PackSetView)
    requires
        accounts.len() >= 2,
        accounts[1].is_signer,
        PackSetView::decode(accounts[0].data) == Ok::<PackSetView, PackError>(set),
        accounts[1].key@ == set.authority,
        set.pack_state != PackSetState::Activated,
    ensures
        deactivate_outcome(accounts) == Err::<PackSetView, PackError>(
            PackError::PackAlreadyDeactivated,
        ),
{
}

} // verus!
