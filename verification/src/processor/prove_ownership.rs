//! `ProveOwnership`: records that a holder owns one voucher.

use vstd::prelude::*;
use crate::account::{ledger, Account, AccountView, Key};
use crate::address::{address_key, find_proving_process_program_address, program_address};
use crate::address::{program_address_key, proving_seeds, seeds_view, DerivedAddress};
use crate::cpi::{signers_view, token_account, token_program_id, Invocation, TokenHolding};
use crate::distribution::{seed_message, seed_of_digest, selection_seed, sha256};
use crate::error::PackError;
use crate::processor::{load_voucher, voucher_in};
use crate::state::pack_set::{PackSet, PackSetView};
use crate::state::proving_process::{lemma_proving_process_roundtrip, ProvingProcess};
use crate::state::proving_process::{ProvingProcessView, PROVING_PROCESS_LEN};
use crate::state::{AccountType, ActionOnProve, PackSetState};
use crate::utils::{assert_owned_by, assert_signer, create_account, create_account_invocation};
use crate::utils::unpack_token_account;

verus! {

/// What a successful `ProveOwnership` stores and reports.
pub struct Proof {
    /// The claim, counting one more proven voucher.
    pub process: ProvingProcessView,
    /// Whether the claim was opened by this proof.
    pub fresh: bool,
    /// What becomes of the proven voucher.
    pub action_on_prove: ActionOnProve,
    /// Whether the holder has now proven as many vouchers as opening a pack
    /// takes.
    pub complete: bool,
}

/// The claim that a proof continues. Empty storage opens a new claim with
/// the given seed. Storage that holds a claim must be owned by the program
/// and the claim must be the holder's claim against this pack set with this
/// voucher; its seed stays as recorded.
pub open spec fn claim_to_continue(program_id: Seq<u8>, accounts: Seq<AccountView>, seed: u64) -> Result<
    ProvingProcessView,
    PackError,
> {
    if accounts[2].data.len() == 0 {
        Ok(
            ProvingProcessView {
                account_type: AccountType::ProvingProcess,
                pack_set: accounts[0].key@,
                holder: accounts[3].key@,
                voucher: accounts[1].key@,
                proved_vouchers: 0,
                seed,
                selected_card: None,
            },
        )
    } else if accounts[2].owner@ != program_id {
        Err(PackError::IllegalOwner)
    } else {
        match ProvingProcessView::decode(accounts[2].data) {
            Err(e) => Err(e),
            Ok(process) => if process.pack_set != accounts[0].key@ || process.holder
                != accounts[3].key@ || process.voucher != accounts[1].key@ {
                Err(PackError::InvalidArgument)
            } else {
                Ok(process)
            },
        }
    }
}

/// What `ProveOwnership` makes of the accounts it is handed, given what the
/// holder's token account holds, the address derived for the holder's claim,
/// and the seed for a claim that this proof opens: what to store and
/// report, or the first failure. The accounts are the pack set, the voucher
/// record, the storage of the holder's claim, the holder, and the holder's
/// token account.
///
/// The pack set must be active. The token account must belong to the token
/// program, be controlled by the holder, hold tokens of the voucher's
/// template, and hold at least one.
pub open spec fn prove_ownership_outcome_with(
    program_id: Seq<u8>,
    accounts: Seq<AccountView>,
    holding: Option<(Seq<u8>, Seq<u8>, u64)>,
    address: Option<Seq<u8>>,
    seed: u64,
) -> Result<Proof, PackError> {
    if accounts.len() < 5 {
        Err(PackError::NotEnoughAccountKeys)
    } else if !accounts[3].is_signer {
        Err(PackError::MissingRequiredSignature)
    } else if accounts[0].owner@ != program_id {
        Err(PackError::IllegalOwner)
    } else {
        match PackSetView::decode(accounts[0].data) {
            Err(e) => Err(e),
            Ok(set) => if set.pack_state != PackSetState::Activated {
                Err(PackError::WrongPackState)
            } else {
                match voucher_in(program_id, accounts[0].key@, accounts[1]) {
                    Err(e) => Err(e),
                    Ok(voucher) => if accounts[4].owner@ != token_program_id() {
                        Err(PackError::IllegalOwner)
                    } else {
                        match holding {
                            None => Err(PackError::InvalidAccountData),
                            Some(tokens) => if tokens.1 != accounts[3].key@ || tokens.0
                                != voucher.master || tokens.2 == 0 {
                                Err(PackError::InvalidArgument)
                            } else if address != Some(accounts[2].key@) {
                                Err(PackError::InvalidArgument)
                            } else {
                                match claim_to_continue(program_id, accounts, seed) {
                                    Err(e) => Err(e),
                                    Ok(process) => match process.proven(voucher.number_to_open) {
                                        Err(e) => Err(e),
                                        Ok(after) => Ok(
                                            Proof {
                                                process: after,
                                                fresh: accounts[2].data.len() == 0,
                                                action_on_prove: voucher.action_on_prove,
                                                complete: after.is_complete(
                                                    voucher.number_to_open,
                                                ),
                                            },
                                        ),
                                    },
                                }
                            },
                        }
                    },
                }
            },
        }
    }
}

/// What `ProveOwnership` makes of the accounts it is handed. The token
/// account is read from the fifth account; the claim's address is derived
/// from the pack set's and the holder's address; the seed of a claim that
/// this proof opens is fixed from the ledger's entropy, the holder's
/// address and the sequence number 1.
pub open spec fn prove_ownership_outcome(
    program_id: Seq<u8>,
    accounts: Seq<AccountView>,
    entropy: Seq<u8>,
) -> Result<Proof, PackError> {
    prove_ownership_outcome_with(
        program_id,
        accounts,
        token_account(accounts[4].data),
        program_address_key(proving_seeds(accounts[0].key@, accounts[3].key@), program_id),
        seed_of_digest(sha256(seed_message(entropy, accounts[3].key@, 1))),
    )
}

/// The seed is fixed once recorded. A proof that continues a claim leaves
/// the claim's seed, pack set, holder and voucher as they were stored and
/// counts exactly one more proven voucher, whatever the ledger's entropy is
/// by then.
pub proof fn lemma_seed_is_fixed(program_id: Seq<u8>, accounts: Seq<AccountView>, entropy: Seq<u8>)
    requires
        prove_ownership_outcome(program_id, accounts, entropy) is Ok,
        accounts[2].data.len() != 0,
    ensures
        ({
            let stored = ProvingProcessView::decode(accounts[2].data);
            let proof = prove_ownership_outcome(program_id, accounts, entropy)->Ok_0;
            &&& stored is Ok
            &&& !proof.fresh
            &&& proof.process == (ProvingProcessView {
                proved_vouchers: (stored->Ok_0.proved_vouchers + 1) as u32,
                ..stored->Ok_0
            })
            &&& proof.process.seed == stored->Ok_0.seed
        }),
{
}

/// A proof that opens a claim fixes the seed from the entropy, the holder
/// and the sequence number 1, and counts the first proven voucher.
pub proof fn lemma_first_proof_fixes_the_seed(
    program_id: Seq<u8>,
    accounts: Seq<AccountView>,
    entropy: Seq<u8>,
)
    requires
        prove_ownership_outcome(program_id, accounts, entropy) is Ok,
        accounts[2].data.len() == 0,
    ensures
        ({
            let proof = prove_ownership_outcome(program_id, accounts, entropy)->Ok_0;
            &&& proof.fresh
            &&& proof.process.proved_vouchers == 1
            &&& proof.process.seed == seed_of_digest(
                sha256(seed_message(entropy, accounts[3].key@, 1)),
            )
            &&& proof.process.selected_card is None
        }),
{
}

/// What a successful `ProveOwnership` hands back to the host.
#[derive(Debug, PartialEq, Eq)]
pub struct ProofReceipt {
    /// The invocation that allocates the claim's storage, where this proof
    /// opened the claim. The host invokes it before it persists the
    /// accounts.
    pub allocation: Option<Invocation>,
    /// What becomes of the proven voucher.
    pub action_on_prove: ActionOnProve,
    /// Whether the holder has now proven as many vouchers as opening a pack
    /// takes.
    pub complete: bool,
}

/// What a token account holds, as a mathematical value.
pub open spec fn holding_view(holding: Option<TokenHolding>) -> Option<(Seq<u8>, Seq<u8>, u64)> {
    match holding {
        Some(h) => Some((h.mint@, h.owner@, h.amount)),
        None => None,
    }
}

/// The accounts that a successful proof leaves behind: the third account
/// holds the holder's claim with one more proven voucher and is owned by the
/// program, and nothing else differs.
pub open spec fn proof_stored(program_id: Key, before: Seq<AccountView>, proof: Proof) -> Seq<
    AccountView,
> {
    before.update(
        2,
        AccountView { owner: program_id, data: proof.process.encode(), ..before[2] },
    )
}

/// A claim that has just been stored reads back as it was written, so the
/// next proof and the claim itself find what this proof recorded.
pub proof fn lemma_proof_is_stored(program_id: Key, accounts: Seq<AccountView>, entropy: Seq<u8>)
    requires
        prove_ownership_outcome(program_id@, accounts, entropy) is Ok,
    ensures
        ({
            let proof = prove_ownership_outcome(program_id@, accounts, entropy)->Ok_0;
            let after = proof_stored(program_id, accounts, proof);
            &&& ProvingProcessView::decode(after[2].data) == Ok::<ProvingProcessView, PackError>(
                proof.process,
            )
            &&& after[2].owner == program_id
            &&& proof.process.pack_set == accounts[0].key@
            &&& proof.process.holder == accounts[3].key@
            &&& proof.process.voucher == accounts[1].key@
            &&& proof.process.proved_vouchers >= 1
        }),
{
    let proof = prove_ownership_outcome(program_id@, accounts, entropy)->Ok_0;
    lemma_proving_process_roundtrip(proof.process);
}

/// What `prove_ownership_with` leaves behind and hands back. Where the
/// proof opened the claim, the receipt holds the invocation that allocates
/// the claim's storage, funded by the holder with `minimum_balance` and
/// signed for by the address's seeds. On failure nothing differs.
pub open spec fn prove_ownership_with_post(
    program_id: Key,
    before: Seq<AccountView>,
    after: Seq<AccountView>,
    holding: Option<TokenHolding>,
    address: Option<DerivedAddress>,
    seed: u64,
    minimum_balance: u64,
    r: Result<ProofReceipt, PackError>,
) -> bool {
    match r {
        Ok(receipt) => prove_ownership_outcome_with(
            program_id@,
            before,
            holding_view(holding),
            address_key(address),
            seed,
        ) matches Ok(proof) && after == proof_stored(program_id, before, proof)
            && receipt.action_on_prove == proof.action_on_prove && receipt.complete
            == proof.complete && match receipt.allocation {
            Some(allocation) => proof.fresh && allocation@ == create_account_invocation(
                program_id@,
                before[3].key,
                before[2].key,
                PROVING_PROCESS_LEN,
                seq![seeds_view(address->0.signer_seeds@)],
                minimum_balance,
            ),
            None => !proof.fresh,
        },
        Err(e) => prove_ownership_outcome_with(
            program_id@,
            before,
            holding_view(holding),
            address_key(address),
            seed,
        ) == Err::<Proof, PackError>(e) && after == before,
    }
}

/// What `ProveOwnership` leaves behind and hands back. Where the proof
/// opened the claim, the receipt holds the invocation that allocates the
/// claim's storage, funded by the holder with `minimum_balance` and signed
/// for by the seeds of the claim's address. On failure nothing differs.
pub open spec fn prove_ownership_post(
    program_id: Key,
    before: Seq<AccountView>,
    after: Seq<AccountView>,
    entropy: Seq<u8>,
    minimum_balance: u64,
    r: Result<ProofReceipt, PackError>,
) -> bool {
    match r {
        Ok(receipt) => {
            &&& prove_ownership_outcome(program_id@, before, entropy) matches Ok(proof)
            &&& program_address(
                proving_seeds(before[0].key@, before[3].key@),
                program_id@,
            ) matches Some(found)
            &&& after == proof_stored(program_id, before, proof)
            &&& receipt.action_on_prove == proof.action_on_prove
            &&& receipt.complete == proof.complete
            &&& match receipt.allocation {
                Some(allocation) => proof.fresh && allocation@ == create_account_invocation(
                    program_id@,
                    before[3].key,
                    before[2].key,
                    PROVING_PROCESS_LEN,
                    seq![proving_seeds(before[0].key@, before[3].key@).push(seq![found.1])],
                    minimum_balance,
                ),
                None => !proof.fresh,
            }
        },
        Err(e) => prove_ownership_outcome(program_id@, before, entropy) == Err::<
            Proof,
            PackError,
        >(e) && after == before,
    }
}

/// Records a proof, given what the holder's token account holds, the
/// address derived for the holder's claim, and the seed for a claim that
/// this proof opens.
pub fn prove_ownership_with(
    program_id: &Key,
    accounts: &mut Vec<Account>,
    holding: Option<TokenHolding>,
    address: Option<DerivedAddress>,
    seed: u64,
    minimum_balance: u64,
) -> (r: Result<ProofReceipt, PackError>)
    ensures
        prove_ownership_with_post(
            *program_id,
            ledger(old(accounts)@),
            ledger(final(accounts)@),
            holding,
            address,
            seed,
            minimum_balance,
            r,
        ),
{
    if accounts.len() < 5 {
        return Err(PackError::NotEnoughAccountKeys);
    }
    assert_signer(&accounts[3])?;
    assert_owned_by(&accounts[0], program_id)?;
    let pack_set = PackSet::unpack(accounts[0].data.as_slice())?;
    if pack_set.pack_state != PackSetState::Activated {
        return Err(PackError::WrongPackState);
    }
    let pack_set_key = accounts[0].key;
    let holder_key = accounts[3].key;
    let voucher_key = accounts[1].key;
    let voucher = load_voucher(program_id, &pack_set_key, &accounts[1])?;
    if !accounts[4].owner.equals(&token_program_key()) {
        return Err(PackError::IllegalOwner);
    }
    let holding = match holding {
        Some(h) => h,
        None => {
            return Err(PackError::InvalidAccountData);
        },
    };
    if !holding.owner.equals(&holder_key) || !holding.mint.equals(&voucher.master)
        || holding.amount == 0 {
        return Err(PackError::InvalidArgument);
    }
    let address = match address {
        Some(a) => a,
        None => {
            return Err(PackError::InvalidArgument);
        },
    };
    if !address.key.equals(&accounts[2].key) {
        return Err(PackError::InvalidArgument);
    }
    let fresh = accounts[2].data.len() == 0;
    let mut process = if fresh {
        ProvingProcess::start(pack_set_key, holder_key, voucher_key, seed)
    } else {
        assert_owned_by(&accounts[2], program_id)?;
        let stored = ProvingProcess::unpack(accounts[2].data.as_slice())?;
        if !stored.pack_set.equals(&pack_set_key) || !stored.holder.equals(&holder_key)
            || !stored.voucher.equals(&voucher_key) {
            return Err(PackError::InvalidArgument);
        }
        stored
    };
    process.prove(voucher.number_to_open)?;
    let allocation = if fresh {
        let mut signers_seeds: Vec<Vec<Vec<u8>>> = Vec::new();
        signers_seeds.push(address.signer_seeds);
        assert(signers_view(signers_seeds@) =~= seq![seeds_view(address.signer_seeds@)]);
        Some(
            create_account(
                program_id,
                &accounts[3],
                &accounts[2],
                ProvingProcess::LEN,
                signers_seeds,
                minimum_balance,
            ),
        )
    } else {
        None
    };
    let complete = process.is_complete(voucher.number_to_open);
    let stored_process = accounts[2].allocated(*program_id, process.pack());
    accounts.set(2, stored_process);
    assert(ledger(accounts@) =~= ledger(old(accounts)@).update(
        2,
        AccountView { owner: *program_id, data: process@.encode(), ..old(accounts)@[2]@ },
    ));
    Ok(ProofReceipt { allocation, action_on_prove: voucher.action_on_prove, complete })
}

/// Processes `ProveOwnership`.
pub fn prove_ownership(
    program_id: &Key,
    accounts: &mut Vec<Account>,
    entropy: &[u8],
    minimum_balance: u64,
) -> (r: Result<ProofReceipt, PackError>)
    ensures
        prove_ownership_post(
            *program_id,
            ledger(old(accounts)@),
            ledger(final(accounts)@),
            entropy@,
            minimum_balance,
            r,
        ),
{
    if accounts.len() < 5 {
        return Err(PackError::NotEnoughAccountKeys);
    }
    let holding = match unpack_token_account(accounts[4].data.as_slice()) {
        Ok(h) => Some(h),
        Err(_) => None,
    };
    let address = find_proving_process_program_address(
        program_id,
        &accounts[0].key,
        &accounts[3].key,
    );
    let seed = selection_seed(entropy, &accounts[3].key, 1);
    prove_ownership_with(program_id, accounts, holding, address, seed, minimum_balance)
}

/// The address of the token program.
pub fn token_program_key() -> (key: Key)
    ensures
        key@ == token_program_id(),
{
    let key = Key::new(
        [
            6u8, 221u8, 246u8, 225u8, 215u8, 101u8, 161u8, 147u8, 217u8, 203u8, 225u8, 70u8,
            206u8, 235u8, 121u8, 172u8, 28u8, 180u8, 133u8, 237u8, 95u8, 91u8, 55u8, 145u8, 58u8,
            140u8, 245u8, 133u8, 126u8, 255u8, 0u8, 169u8,
        ],
    );
    assert(key@ =~= token_program_id());
    key
}

} // verus!
