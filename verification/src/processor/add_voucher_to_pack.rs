//! `AddVoucherToPack`: registers the next voucher of a pack set.

use vstd::prelude::*;
use crate::account::{ledger, Account, AccountView, Key};
use crate::address::{address_key, find_pack_voucher_program_address, program_address};
use crate::address::{program_address_key, seeds_view, voucher_seeds, DerivedAddress};
use crate::cpi::{signers_view, Invocation};
use crate::error::PackError;
use crate::instruction::AddVoucherToPackArgs;
use crate::math::{spec_increment_u32, SafeMath};
use crate::processor::voucher_in;
use crate::state::pack_set::{lemma_pack_set_roundtrip, PackSet, PackSetView};
use crate::state::pack_voucher::{lemma_pack_voucher_roundtrip, PackVoucher};
use crate::state::pack_voucher::{PackVoucherView, PACK_VOUCHER_LEN};
use crate::state::AccountType;
use crate::utils::{assert_owned_by, assert_signer, create_account, create_account_invocation};

verus! {

/// What a successful `AddVoucherToPack` stores.
pub struct VoucherRegistration {
    /// The pack set, counting one more voucher.
    pub set: PackSetView,
    /// The new voucher.
    pub voucher: PackVoucherView,
}

/// What `AddVoucherToPack` makes of the accounts it is handed, given the
/// address derived for the new voucher: what to store, or the first
/// failure. The accounts are the pack set, the storage of the new voucher,
/// the pack set's authority, and the collectible template.
///
/// The new voucher takes the next index, and its storage must lie at the
/// derived address, else `InvalidArgument`.
pub open spec fn add_voucher_outcome_at(
    program_id: Seq<u8>,
    accounts: Seq<AccountView>,
    args: AddVoucherToPackArgs,
    address: Option<Seq<u8>>,
) -> Result<VoucherRegistration, PackError> {
    if accounts.len() < 4 {
        Err(PackError::NotEnoughAccountKeys)
    } else if !accounts[2].is_signer {
        Err(PackError::MissingRequiredSignature)
    } else if accounts[0].owner@ != program_id {
        Err(PackError::IllegalOwner)
    } else {
        match PackSetView::decode(accounts[0].data) {
            Err(e) => Err(e),
            Ok(set) => if accounts[2].key@ != set.authority {
                Err(PackError::MissingRequiredSignature)
            } else {
                match set.voucher_registered() {
                    Err(e) => Err(e),
                    Ok(counted) => if address != Some(accounts[1].key@) {
                        Err(PackError::InvalidArgument)
                    } else if accounts[1].holds_record() {
                        Err(PackError::AlreadyInitialized)
                    } else {
                        Ok(
                            VoucherRegistration {
                                set: counted,
                                voucher: PackVoucherView {
                                    account_type: AccountType::PackVoucher,
                                    pack_set: accounts[0].key@,
                                    master: accounts[3].key@,
                                    index: counted.pack_vouchers,
                                    max_supply: args.max_supply,
                                    number_to_open: args.number_to_open,
                                    action_on_prove: args.action_on_prove,
                                },
                            },
                        )
                    },
                }
            },
        }
    }
}

/// The index that the next voucher of the stored pack set takes: one more
/// than the vouchers registered so far. Zero where the bytes hold no pack
/// set or the counter is at its limit; no voucher is registered then.
pub open spec fn next_voucher_index(data: Seq<u8>) -> u32 {
    match PackSetView::decode(data) {
        Ok(set) => match spec_increment_u32(set.pack_vouchers) {
            Ok(next) => next,
            Err(_) => 0,
        },
        Err(_) => 0,
    }
}

/// What `AddVoucherToPack` makes of the accounts it is handed: the new
/// voucher's address is derived from the pack set's address and the next
/// index.
pub open spec fn add_voucher_outcome(
    program_id: Seq<u8>,
    accounts: Seq<AccountView>,
    args: AddVoucherToPackArgs,
) -> Result<VoucherRegistration, PackError> {
    add_voucher_outcome_at(
        program_id,
        accounts,
        args,
        program_address_key(
            voucher_seeds(accounts[0].key@, next_voucher_index(accounts[0].data)),
            program_id,
        ),
    )
}

/// The accounts that a successful registration leaves behind: the pack
/// set's account holds the pack set with one more voucher, the second
/// account holds the new voucher and is owned by the program, and nothing
/// else differs.
pub open spec fn voucher_stored(
    program_id: Key,
    before: Seq<AccountView>,
    done: VoucherRegistration,
) -> Seq<AccountView> {
    before.update(0, AccountView { data: done.set.encode(), ..before[0] }).update(
        1,
        AccountView { owner: program_id, data: done.voucher.encode(), ..before[1] },
    )
}

/// A voucher that has just been registered reads back as it was written: a
/// voucher of this pack set with the next index, stored next to the pack set
/// that counts it.
pub proof fn lemma_registered_voucher_is_stored(
    program_id: Key,
    accounts: Seq<AccountView>,
    args: AddVoucherToPackArgs,
)
    requires
        add_voucher_outcome(program_id@, accounts, args) is Ok,
    ensures
        ({
            let done = add_voucher_outcome(program_id@, accounts, args)->Ok_0;
            let after = voucher_stored(program_id, accounts, done);
            let before = PackSetView::decode(accounts[0].data)->Ok_0;
            &&& PackSetView::decode(after[0].data) == Ok::<PackSetView, PackError>(done.set)
            &&& voucher_in(program_id@, accounts[0].key@, after[1]) == Ok::<
                PackVoucherView,
                PackError,
            >(done.voucher)
            &&& done.voucher.account_type == AccountType::PackVoucher
            &&& done.voucher.index == before.pack_vouchers + 1
            &&& done.set == (PackSetView { pack_vouchers: done.voucher.index, ..before })
        }),
{
    let done = add_voucher_outcome(program_id@, accounts, args)->Ok_0;
    lemma_pack_set_roundtrip(done.set);
    lemma_pack_voucher_roundtrip(done.voucher);
}

/// What `add_voucher_at` leaves behind and hands back. The result of a
/// success is the invocation that allocates the voucher's storage, funded
/// by the authority with `minimum_balance` and signed for by the address's
/// seeds. On failure nothing differs.
pub open spec fn add_voucher_at_post(
    program_id: Key,
    before: Seq<AccountView>,
    after: Seq<AccountView>,
    args: AddVoucherToPackArgs,
    minimum_balance: u64,
    address: Option<DerivedAddress>,
    r: Result<Invocation, PackError>,
) -> bool {
    match r {
        Ok(allocation) => add_voucher_outcome_at(
            program_id@,
            before,
            args,
            address_key(address),
        ) matches Ok(done) && after == voucher_stored(program_id, before, done) && allocation@
            == create_account_invocation(
            program_id@,
            before[2].key,
            before[1].key,
            PACK_VOUCHER_LEN,
            seq![seeds_view(address->0.signer_seeds@)],
            minimum_balance,
        ),
        Err(e) => add_voucher_outcome_at(program_id@, before, args, address_key(address))
            == Err::<VoucherRegistration, PackError>(e) && after == before,
    }
}

/// What `AddVoucherToPack` leaves behind and hands back. The result of a
/// success is the invocation that allocates the voucher's storage, funded
/// by the authority with `minimum_balance` and signed for by the seeds of
/// the voucher's address. On failure nothing differs.
pub open spec fn add_voucher_post(
    program_id: Key,
    before: Seq<AccountView>,
    after: Seq<AccountView>,
    args: AddVoucherToPackArgs,
    minimum_balance: u64,
    r: Result<Invocation, PackError>,
) -> bool {
    match r {
        Ok(allocation) => {
            &&& add_voucher_outcome(program_id@, before, args) matches Ok(done)
            &&& program_address(
                voucher_seeds(before[0].key@, done.voucher.index),
                program_id@,
            ) matches Some(found)
            &&& after == voucher_stored(program_id, before, done)
            &&& allocation@ == create_account_invocation(
                program_id@,
                before[2].key,
                before[1].key,
                PACK_VOUCHER_LEN,
                seq![voucher_seeds(before[0].key@, done.voucher.index).push(seq![found.1])],
                minimum_balance,
            )
        },
        Err(e) => add_voucher_outcome(program_id@, before, args) == Err::<
            VoucherRegistration,
            PackError,
        >(e) && after == before,
    }
}

/// Registers the next voucher of a pack set at the given address.
pub fn add_voucher_at(
    program_id: &Key,
    accounts: &mut Vec<Account>,
    args: AddVoucherToPackArgs,
    minimum_balance: u64,
    address: Option<DerivedAddress>,
) -> (r: Result<Invocation, PackError>)
    ensures
        add_voucher_at_post(
            *program_id,
            ledger(old(accounts)@),
            ledger(final(accounts)@),
            args,
            minimum_balance,
            address,
            r,
        ),
{
    if accounts.len() < 4 {
        return Err(PackError::NotEnoughAccountKeys);
    }
    assert_signer(&accounts[2])?;
    assert_owned_by(&accounts[0], program_id)?;
    let mut pack_set = PackSet::unpack(accounts[0].data.as_slice())?;
    if !accounts[2].key.equals(&pack_set.authority) {
        return Err(PackError::MissingRequiredSignature);
    }
    let index = pack_set.register_voucher()?;
    let pack_set_key = accounts[0].key;
    let address = match address {
        Some(a) => a,
        None => {
            return Err(PackError::InvalidArgument);
        },
    };
    if !address.key.equals(&accounts[1].key) {
        return Err(PackError::InvalidArgument);
    }
    if accounts[1].holds_record() {
        return Err(PackError::AlreadyInitialized);
    }
    let voucher = PackVoucher::new(
        pack_set_key,
        accounts[3].key,
        index,
        args.max_supply,
        args.number_to_open,
        args.action_on_prove,
    );
    let mut signers_seeds: Vec<Vec<Vec<u8>>> = Vec::new();
    signers_seeds.push(address.signer_seeds);
    assert(signers_view(signers_seeds@) =~= seq![seeds_view(address.signer_seeds@)]);
    let allocation = create_account(
        program_id,
        &accounts[2],
        &accounts[1],
        PackVoucher::LEN,
        signers_seeds,
        minimum_balance,
    );
    let stored_set = accounts[0].with_data(pack_set.pack());
    let stored_voucher = accounts[1].allocated(*program_id, voucher.pack());
    accounts.set(0, stored_set);
    accounts.set(1, stored_voucher);
    assert(ledger(accounts@) =~= ledger(old(accounts)@).update(
        0,
        AccountView { data: pack_set@.encode(), ..old(accounts)@[0]@ },
    ).update(
        1,
        AccountView { owner: *program_id, data: voucher@.encode(), ..old(accounts)@[1]@ },
    ));
    Ok(allocation)
}

/// The index that the next voucher of the stored pack set takes.
pub fn voucher_index_to_add(data: &[u8]) -> (index: u32)
    ensures
        index == next_voucher_index(data@),
{
    match PackSet::unpack(data) {
        Ok(set) => match set.pack_vouchers.error_increment() {
            Ok(next) => next,
            Err(_) => 0,
        },
        Err(_) => 0,
    }
}

/// Processes `AddVoucherToPack`. The host invokes the returned allocation
/// before it persists the accounts.
pub fn add_voucher_to_pack(
    program_id: &Key,
    accounts: &mut Vec<Account>,
    args: AddVoucherToPackArgs,
    minimum_balance: u64,
) -> (r: Result<Invocation, PackError>)
    ensures
        add_voucher_post(
            *program_id,
            ledger(old(accounts)@),
            ledger(final(accounts)@),
            args,
            minimum_balance,
            r,
        ),
{
    if accounts.len() < 4 {
        return Err(PackError::NotEnoughAccountKeys);
    }
    let index = voucher_index_to_add(accounts[0].data.as_slice());
    let address = find_pack_voucher_program_address(program_id, &accounts[0].key, index);
    add_voucher_at(program_id, accounts, args, minimum_balance, address)
}

} // verus!
