//! `EditPack`: changes a pack set's name, number of packs or mutability.

use vstd::prelude::*;
use crate::account::{ledger, Account, AccountView, Key};
use crate::error::PackError;
use crate::instruction::EditPackSetArgs;
use crate::state::pack_set::{PackSet, PackSetView};
use crate::state::PackSetState;
use crate::utils::assert_signer;

verus! {

/// What the requested changes make of a pack set: the changed pack set, or
/// the failure. A name, a number of packs or a mutability equal to the
/// current one is `CantSetTheSameValue`; a number of packs below the number
/// of registered cards is `SmallTotalPacksAmount`. The fields are judged in
/// the order name, number of packs, mutability.
pub open spec fn changes_outcome(set: PackSetView, changes: EditPackSetArgs) -> Result<
    PackSetView,
    PackError,
> {
    if changes.name matches Some(n) && n@ == set.name {
        Err(PackError::CantSetTheSameValue)
    } else if changes.total_packs matches Some(t) && t == set.total_packs {
        Err(PackError::CantSetTheSameValue)
    } else if changes.total_packs matches Some(t) && t < set.pack_cards {
        Err(PackError::SmallTotalPacksAmount)
    } else if changes.mutable matches Some(m) && m == set.mutable {
        Err(PackError::CantSetTheSameValue)
    } else {
        Ok(
            PackSetView {
                name: match changes.name {
                    Some(n) => n@,
                    None => set.name,
                },
                total_packs: match changes.total_packs {
                    Some(t) => t,
                    None => set.total_packs,
                },
                mutable: match changes.mutable {
                    Some(m) => m,
                    None => set.mutable,
                },
                ..set
            },
        )
    }
}

/// What `EditPack` makes of the accounts it is handed: the pack set to store,
/// or the first failure. The accounts are the pack set, then its authority.
pub open spec fn edit_pack_outcome(accounts: Seq<AccountView>, args: EditPackSetArgs) -> Result<
    PackSetView,
    PackError,
> {
    if accounts.len() < 2 {
        Err(PackError::NotEnoughAccountKeys)
    } else if !accounts[1].is_signer {
        Err(PackError::MissingRequiredSignature)
    } else {
        match PackSetView::decode(accounts[0].data) {
            Err(e) => Err(e),
            Ok(set) => if accounts[1].key@ != set.authority {
                Err(PackError::MissingRequiredSignature)
            } else if !set.mutable {
                Err(PackError::ImmutablePackSet)
            } else if set.pack_state == PackSetState::Activated {
                Err(PackError::WrongPackState)
            } else {
                changes_outcome(set, args)
            },
        }
    }
}

/// An edit never sets a field to the value it already has, and never sets
/// the number of packs below the number of registered cards: any such change
/// is refused, with `CantSetTheSameValue` or `SmallTotalPacksAmount`.
pub proof fn lemma_edit_rejects_noop_and_shrink(set: PackSetView, changes: EditPackSetArgs)
    ensures
        (changes.name matches Some(n) && n@ == set.name) ==> changes_outcome(set, changes) == Err::<
            PackSetView,
            PackError,
        >(PackError::CantSetTheSameValue),
        (changes.total_packs matches Some(t) && t == set.total_packs) ==> changes_outcome(
            set,
            changes,
        ) == Err::<PackSetView, PackError>(PackError::CantSetTheSameValue),
        (changes.mutable matches Some(m) && m == set.mutable) ==> (changes_outcome(set, changes)
            == Err::<PackSetView, PackError>(PackError::CantSetTheSameValue) || changes_outcome(
            set,
            changes,
        ) == Err::<PackSetView, PackError>(PackError::SmallTotalPacksAmount)),
        (changes.total_packs matches Some(t) && t < set.pack_cards) ==> (changes_outcome(
            set,
            changes,
        ) == Err::<PackSetView, PackError>(PackError::CantSetTheSameValue) || changes_outcome(
            set,
            changes,
        ) == Err::<PackSetView, PackError>(PackError::SmallTotalPacksAmount)),
        (changes.total_packs matches Some(t) && t < set.pack_cards && t != set.total_packs && !(
        changes.name matches Some(n) && n@ == set.name)) ==> changes_outcome(set, changes) == Err::<
            PackSetView,
            PackError,
        >(PackError::SmallTotalPacksAmount),
        changes_outcome(set, changes) matches Ok(after) ==> after.pack_cards <= after.total_packs
            || after.total_packs == set.total_packs,
{
}

/// `EditPack` changes nothing but the three editable fields, and only on a
/// mutable pack set that is not active.
pub proof fn lemma_edit_pack_keeps_the_rest(accounts: Seq<AccountView>, args: EditPackSetArgs)
    requires
        edit_pack_outcome(accounts, args) is Ok,
    ensures
        ({
            let before = PackSetView::decode(accounts[0].data)->Ok_0;
            let after = edit_pack_outcome(accounts, args)->Ok_0;
            &&& before.mutable
            &&& before.pack_state != PackSetState::Activated
            &&& after.account_type == before.account_type
            &&& after.authority == before.authority
            &&& after.minting_authority == before.minting_authority
            &&& after.pack_cards == before.pack_cards
            &&& after.pack_vouchers == before.pack_vouchers
            &&& after.pack_state == before.pack_state
        }),
{
}

/// Whether two 32-byte labels are the same.
fn same_name(a: &[u8; 32], b: &[u8; 32]) -> (same: bool)
    ensures
        same == (a@ == b@),
{
    let mut i: usize = 0;
    while i < 32
        invariant
            i <= 32,
            forall|j: int| 0 <= j < i ==> a@[j] == b@[j],
        decreases 32 - i,
    {
        if a[i] != b[i] {
            return false;
        }
        i = i + 1;
    }
    assert(a@ =~= b@);
    true
}

/// Applies the requested changes to a pack set, or fails and leaves it as it
/// was.
pub fn apply_changes(pack_set: &mut PackSet, changes: EditPackSetArgs) -> (r: Result<
    (),
    PackError,
>)
    ensures
        match r {
            Ok(_) => changes_outcome(old(pack_set)@, changes) == Ok::<PackSetView, PackError>(
                final(pack_set)@,
            ),
            Err(e) => changes_outcome(old(pack_set)@, changes) == Err::<PackSetView, PackError>(e)
                && *final(pack_set) == *old(pack_set),
        },
{
    if let Some(new_name) = changes.name {
        if same_name(&new_name, &pack_set.name) {
            return Err(PackError::CantSetTheSameValue);
        }
    }
    if let Some(new_total_packs) = changes.total_packs {
        if new_total_packs == pack_set.total_packs {
            return Err(PackError::CantSetTheSameValue);
        }
        if new_total_packs < pack_set.pack_cards {
            return Err(PackError::SmallTotalPacksAmount);
        }
    }
    if let Some(new_mutable_value) = changes.mutable {
        if new_mutable_value == pack_set.mutable {
            return Err(PackError::CantSetTheSameValue);
        }
    }
    if let Some(new_name) = changes.name {
        pack_set.name = new_name;
    }
    if let Some(new_total_packs) = changes.total_packs {
        pack_set.total_packs = new_total_packs;
    }
    if let Some(new_mutable_value) = changes.mutable {
        pack_set.mutable = new_mutable_value;
    }
    Ok(())
}

/// What `EditPack` leaves behind: on success the pack set's account holds
/// the changed pack set and nothing else differs; on failure nothing
/// differs.
pub open spec fn edit_pack_post(
    before: Seq<AccountView>,
    after: Seq<AccountView>,
    args: EditPackSetArgs,
    r: Result<(), PackError>,
) -> bool {
    match r {
        Ok(_) => edit_pack_outcome(before, args) matches Ok(set) && after == before.update(
            0,
            AccountView { data: set.encode(), ..before[0] },
        ),
        Err(e) => edit_pack_outcome(before, args) == Err::<PackSetView, PackError>(e) && after
            == before,
    }
}

/// Processes `EditPack`.
pub fn edit_pack(_program_id: &Key, accounts: &mut Vec<Account>, args: EditPackSetArgs) -> (r:
    Result<(), PackError>)
    ensures
        edit_pack_post(ledger(old(accounts)@), ledger(final(accounts)@), args, r),
{
    if accounts.len() < 2 {
        return Err(PackError::NotEnoughAccountKeys);
    }
    assert_signer(&accounts[1])?;
    let mut pack_set = PackSet::unpack(accounts[0].data.as_slice())?;
    if !accounts[1].key.equals(&pack_set.authority) {
        return Err(PackError::MissingRequiredSignature);
    }
    if !pack_set.mutable {
        return Err(PackError::ImmutablePackSet);
    }
    if pack_set.pack_state == PackSetState::Activated {
        return Err(PackError::WrongPackState);
    }
    apply_changes(&mut pack_set, args)?;
    let stored = accounts[0].with_data(pack_set.pack());
    accounts.set(0, stored);
    assert(ledger(accounts@) =~= ledger(old(accounts)@).update(
        0,
        AccountView { data: pack_set@.encode(), ..old(accounts)@[0]@ },
    ));
    Ok(())
}

} // verus!
