//! The operations of the pack program, one per instruction, and what they
//! share: how the records of a pack set are read from the accounts that an
//! instruction is handed.

use vstd::prelude::*;
use vstd::pervasive::unreached;
use crate::account::{ledger, Account, AccountView, Key};
use crate::cpi::Invocation;
use crate::instruction::NFTPacksInstruction;
use crate::processor::activate::{activate_pack, activate_post};
use crate::processor::add_card_to_pack::{add_card_post, add_card_to_pack};
use crate::processor::add_voucher_to_pack::{add_voucher_post, add_voucher_to_pack};
use crate::processor::claim_pack::{claim_pack, claim_pack_post, MintRequest};
use crate::processor::deactivate::{deactivate_pack, deactivate_post};
use crate::processor::edit_pack::{edit_pack, edit_pack_post};
use crate::processor::init_pack::{init_pack, init_pack_post};
use crate::processor::prove_ownership::{prove_ownership, prove_ownership_post, ProofReceipt};
use crate::error::PackError;
use crate::state::pack_card::{card_views, PackCard, PackCardView};
use crate::state::pack_voucher::{voucher_views, PackVoucher, PackVoucherView};
use crate::utils::assert_owned_by;

pub mod activate;
pub mod add_card_to_pack;
pub mod add_voucher_to_pack;
pub mod claim_pack;
pub mod deactivate;
pub mod edit_pack;
pub mod init_pack;
pub mod prove_ownership;

verus! {

/// What the host ledger supplies to an instruction besides its accounts.
#[derive(Debug, PartialEq, Eq)]
pub struct Environment {
    /// The balance that keeps persisted the record that the instruction
    /// creates: a pack set for `InitPack`, a card for `AddCardToPack`, a
    /// voucher for `AddVoucherToPack`, a claim for `ProveOwnership`.
    pub minimum_balance: u64,
    /// Bytes that nobody could predict before the instruction ran.
    pub entropy: Vec<u8>,
}

/// What the host has to do once an instruction has succeeded.
#[derive(Debug, PartialEq, Eq)]
pub enum HostAction {
    /// Nothing but persisting the accounts.
    Nothing,
    /// Invoke the allocation of a new record's storage, then persist the
    /// accounts.
    Allocate(Invocation),
    /// Dispose of the proven voucher and, where the claim was opened,
    /// invoke the allocation of its storage; then persist the accounts.
    Proof(ProofReceipt),
    /// Mint the edition, then persist the accounts.
    Mint(MintRequest),
}

/// The result of an operation that asks nothing of the host.
pub open spec fn as_unit(r: Result<HostAction, PackError>) -> Option<Result<(), PackError>> {
    match r {
        Ok(HostAction::Nothing) => Some(Ok(())),
        Ok(_) => None,
        Err(e) => Some(Err(e)),
    }
}

/// The result of an operation that asks for an allocation.
pub open spec fn as_allocation(r: Result<HostAction, PackError>) -> Option<
    Result<Invocation, PackError>,
> {
    match r {
        Ok(HostAction::Allocate(a)) => Some(Ok(a)),
        Ok(_) => None,
        Err(e) => Some(Err(e)),
    }
}

/// The result of a proof.
pub open spec fn as_proof(r: Result<HostAction, PackError>) -> Option<
    Result<ProofReceipt, PackError>,
> {
    match r {
        Ok(HostAction::Proof(p)) => Some(Ok(p)),
        Ok(_) => None,
        Err(e) => Some(Err(e)),
    }
}

/// The result of a claim.
pub open spec fn as_mint(r: Result<HostAction, PackError>) -> Option<
    Result<MintRequest, PackError>,
> {
    match r {
        Ok(HostAction::Mint(m)) => Some(Ok(m)),
        Ok(_) => None,
        Err(e) => Some(Err(e)),
    }
}

/// What an instruction leaves behind and hands back: what the operation
/// that the instruction names leaves behind and hands back.
pub open spec fn process_post(
    program_id: Key,
    before: Seq<AccountView>,
    after: Seq<AccountView>,
    instruction: NFTPacksInstruction,
    minimum_balance: u64,
    entropy: Seq<u8>,
    r: Result<HostAction, PackError>,
) -> bool {
    match instruction {
        NFTPacksInstruction::InitPack(args) => as_unit(r) matches Some(done) && init_pack_post(
            program_id@,
            before,
            after,
            args,
            minimum_balance,
            done,
        ),
        NFTPacksInstruction::AddCardToPack(args) => as_allocation(r) matches Some(done)
            && add_card_post(program_id, before, after, args, minimum_balance, done),
        NFTPacksInstruction::AddVoucherToPack(args) => as_allocation(r) matches Some(done)
            && add_voucher_post(program_id, before, after, args, minimum_balance, done),
        NFTPacksInstruction::Activate => as_unit(r) matches Some(done) && activate_post(
            program_id@,
            before,
            after,
            done,
        ),
        NFTPacksInstruction::Deactivate => as_unit(r) matches Some(done) && deactivate_post(
            before,
            after,
            done,
        ),
        NFTPacksInstruction::ProveOwnership => as_proof(r) matches Some(done)
            && prove_ownership_post(program_id, before, after, entropy, minimum_balance, done),
        NFTPacksInstruction::ClaimPack => as_mint(r) matches Some(done) && claim_pack_post(
            program_id@,
            before,
            after,
            done,
        ),
        NFTPacksInstruction::EditPack(args) => as_unit(r) matches Some(done) && edit_pack_post(
            before,
            after,
            args,
            done,
        ),
        _ => false,
    }
}

/// The program's entry: hands each instruction to its operation.
pub struct Processor {}

impl Processor {
    /// Processes an instruction on the accounts it is handed.
    pub fn process_instruction(
        program_id: &Key,
        accounts: &mut Vec<Account>,
        instruction: NFTPacksInstruction,
        environment: &Environment,
    ) -> (r: Result<HostAction, PackError>)
        requires
            instruction.is_supported(),
        ensures
            process_post(
                *program_id,
                ledger(old(accounts)@),
                ledger(final(accounts)@),
                instruction,
                environment.minimum_balance,
                environment.entropy@,
                r,
            ),
    {
        match instruction {
            NFTPacksInstruction::InitPack(args) => {
                init_pack(program_id, accounts, args, environment.minimum_balance)?;
                Ok(HostAction::Nothing)
            },
            NFTPacksInstruction::AddCardToPack(args) => {
                let allocation = add_card_to_pack(
                    program_id,
                    accounts,
                    args,
                    environment.minimum_balance,
                )?;
                Ok(HostAction::Allocate(allocation))
            },
            NFTPacksInstruction::AddVoucherToPack(args) => {
                let allocation = add_voucher_to_pack(
                    program_id,
                    accounts,
                    args,
                    environment.minimum_balance,
                )?;
                Ok(HostAction::Allocate(allocation))
            },
            NFTPacksInstruction::Activate => {
                activate_pack(program_id, accounts)?;
                Ok(HostAction::Nothing)
            },
            NFTPacksInstruction::Deactivate => {
                deactivate_pack(program_id, accounts)?;
                Ok(HostAction::Nothing)
            },
            NFTPacksInstruction::ProveOwnership => {
                let receipt = prove_ownership(
                    program_id,
                    accounts,
                    environment.entropy.as_slice(),
                    environment.minimum_balance,
                )?;
                Ok(HostAction::Proof(receipt))
            },
            NFTPacksInstruction::ClaimPack => {
                let request = claim_pack(program_id, accounts)?;
                Ok(HostAction::Mint(request))
            },
            NFTPacksInstruction::EditPack(args) => {
                edit_pack(program_id, accounts, args)?;
                Ok(HostAction::Nothing)
            },
            _ => unreached(),
        }
    }
}

/// The card that an account holds for a pack set: the account must be owned
/// by the program (`IllegalOwner`), hold a card (`InvalidAccountData`), and
/// the card must belong to the pack set (`InvalidArgument`).
pub open spec fn card_in(program_id: Seq<u8>, pack_set: Seq<u8>, account: AccountView) -> Result<
    PackCardView,
    PackError,
> {
    if account.owner@ != program_id {
        Err(PackError::IllegalOwner)
    } else {
        match PackCardView::decode(account.data) {
            Err(e) => Err(e),
            Ok(card) => if card.pack_set != pack_set {
                Err(PackError::InvalidArgument)
            } else {
                Ok(card)
            },
        }
    }
}

/// The cards that accounts hold for a pack set, in the accounts' order, or
/// the failure of the first account that holds none.
pub open spec fn cards_in(program_id: Seq<u8>, pack_set: Seq<u8>, accounts: Seq<AccountView>) -> Result<
    Seq<PackCardView>,
    PackError,
>
    decreases accounts.len(),
{
    if accounts.len() == 0 {
        Ok(Seq::empty())
    } else {
        match cards_in(program_id, pack_set, accounts.drop_last()) {
            Err(e) => Err(e),
            Ok(cards) => match card_in(program_id, pack_set, accounts.last()) {
                Err(e) => Err(e),
                Ok(card) => Ok(cards.push(card)),
            },
        }
    }
}

/// The voucher that an account holds for a pack set: the account must be
/// owned by the program (`IllegalOwner`), hold a voucher
/// (`InvalidAccountData`), and the voucher must belong to the pack set
/// (`InvalidArgument`).
pub open spec fn voucher_in(program_id: Seq<u8>, pack_set: Seq<u8>, account: AccountView) -> Result<
    PackVoucherView,
    PackError,
> {
    if account.owner@ != program_id {
        Err(PackError::IllegalOwner)
    } else {
        match PackVoucherView::decode(account.data) {
            Err(e) => Err(e),
            Ok(voucher) => if voucher.pack_set != pack_set {
                Err(PackError::InvalidArgument)
            } else {
                Ok(voucher)
            },
        }
    }
}

/// The vouchers that accounts hold for a pack set, in the accounts' order, or
/// the failure of the first account that holds none.
pub open spec fn vouchers_in(
    program_id: Seq<u8>,
    pack_set: Seq<u8>,
    accounts: Seq<AccountView>,
) -> Result<Seq<PackVoucherView>, PackError>
    decreases accounts.len(),
{
    if accounts.len() == 0 {
        Ok(Seq::empty())
    } else {
        match vouchers_in(program_id, pack_set, accounts.drop_last()) {
            Err(e) => Err(e),
            Ok(vouchers) => match voucher_in(program_id, pack_set, accounts.last()) {
                Err(e) => Err(e),
                Ok(voucher) => Ok(vouchers.push(voucher)),
            },
        }
    }
}

/// Reads the card that an account holds for a pack set.
pub fn load_card(program_id: &Key, pack_set: &Key, account: &Account) -> (r: Result<
    PackCard,
    PackError,
>)
    ensures
        match r {
            Ok(card) => card_in(program_id@, pack_set@, account@) == Ok::<PackCardView, PackError>(
                card@,
            ),
            Err(e) => card_in(program_id@, pack_set@, account@) == Err::<PackCardView, PackError>(
                e,
            ),
        },
{
    assert_owned_by(account, program_id)?;
    let card = PackCard::unpack(account.data.as_slice())?;
    if !card.pack_set.equals(pack_set) {
        return Err(PackError::InvalidArgument);
    }
    Ok(card)
}

/// Reads the voucher that an account holds for a pack set.
pub fn load_voucher(program_id: &Key, pack_set: &Key, account: &Account) -> (r: Result<
    PackVoucher,
    PackError,
>)
    ensures
        match r {
            Ok(voucher) => voucher_in(program_id@, pack_set@, account@) == Ok::<
                PackVoucherView,
                PackError,
            >(voucher@),
            Err(e) => voucher_in(program_id@, pack_set@, account@) == Err::<
                PackVoucherView,
                PackError,
            >(e),
        },
{
    assert_owned_by(account, program_id)?;
    let voucher = PackVoucher::unpack(account.data.as_slice())?;
    if !voucher.pack_set.equals(pack_set) {
        return Err(PackError::InvalidArgument);
    }
    Ok(voucher)
}

/// Reads the cards that the accounts from position `start` up to `end` hold
/// for a pack set.
pub fn load_cards(
    program_id: &Key,
    pack_set: &Key,
    accounts: &Vec<Account>,
    start: usize,
    end: usize,
) -> (r: Result<Vec<PackCard>, PackError>)
    requires
        start <= end <= accounts@.len(),
    ensures
        match r {
            Ok(cards) => cards_in(
                program_id@,
                pack_set@,
                ledger(accounts@).subrange(start as int, end as int),
            ) == Ok::<Seq<PackCardView>, PackError>(card_views(cards@)),
            Err(e) => cards_in(
                program_id@,
                pack_set@,
                ledger(accounts@).subrange(start as int, end as int),
            ) == Err::<Seq<PackCardView>, PackError>(e),
        },
{
    let ghost all = ledger(accounts@);
    let mut cards: Vec<PackCard> = Vec::new();
    let mut i: usize = start;
    assert(card_views(cards@) =~= Seq::<PackCardView>::empty());
    while i < end
        invariant
            start <= i <= end <= accounts@.len(),
            all == ledger(accounts@),
            cards_in(program_id@, pack_set@, all.subrange(start as int, i as int)) == Ok::<
                Seq<PackCardView>,
                PackError,
            >(card_views(cards@)),
        decreases end - i,
    {
        let ghost before = all.subrange(start as int, i as int);
        let ghost upto = all.subrange(start as int, i + 1);
        assert(upto.drop_last() =~= before);
        assert(upto.last() == accounts@[i as int]@);
        let loaded = load_card(program_id, pack_set, &accounts[i]);
        match loaded {
            Ok(card) => {
                let ghost old_views = card_views(cards@);
                cards.push(card);
                assert(card_views(cards@) =~= old_views.push(card@));
                i = i + 1;
            },
            Err(e) => {
                proof {
                    lemma_cards_in_prefix_failure(
                        program_id@,
                        pack_set@,
                        all.subrange(start as int, end as int),
                        i + 1 - start,
                    );
                    assert(all.subrange(start as int, end as int).subrange(0, i + 1 - start)
                        =~= upto);
                }
                return Err(e);
            },
        }
    }
    Ok(cards)
}

/// Reads the vouchers that the accounts from position `start` up to `end`
/// hold for a pack set.
pub fn load_vouchers(
    program_id: &Key,
    pack_set: &Key,
    accounts: &Vec<Account>,
    start: usize,
    end: usize,
) -> (r: Result<Vec<PackVoucher>, PackError>)
    requires
        start <= end <= accounts@.len(),
    ensures
        match r {
            Ok(vouchers) => vouchers_in(
                program_id@,
                pack_set@,
                ledger(accounts@).subrange(start as int, end as int),
            ) == Ok::<Seq<PackVoucherView>, PackError>(voucher_views(vouchers@)),
            Err(e) => vouchers_in(
                program_id@,
                pack_set@,
                ledger(accounts@).subrange(start as int, end as int),
            ) == Err::<Seq<PackVoucherView>, PackError>(e),
        },
{
    let ghost all = ledger(accounts@);
    let mut vouchers: Vec<PackVoucher> = Vec::new();
    let mut i: usize = start;
    assert(voucher_views(vouchers@) =~= Seq::<PackVoucherView>::empty());
    while i < end
        invariant
            start <= i <= end <= accounts@.len(),
            all == ledger(accounts@),
            vouchers_in(program_id@, pack_set@, all.subrange(start as int, i as int)) == Ok::<
                Seq<PackVoucherView>,
                PackError,
            >(voucher_views(vouchers@)),
        decreases end - i,
    {
        let ghost before = all.subrange(start as int, i as int);
        let ghost upto = all.subrange(start as int, i + 1);
        assert(upto.drop_last() =~= before);
        assert(upto.last() == accounts@[i as int]@);
        let loaded = load_voucher(program_id, pack_set, &accounts[i]);
        match loaded {
            Ok(voucher) => {
                let ghost old_views = voucher_views(vouchers@);
                vouchers.push(voucher);
                assert(voucher_views(vouchers@) =~= old_views.push(voucher@));
                i = i + 1;
            },
            Err(e) => {
                proof {
                    lemma_vouchers_in_prefix_failure(
                        program_id@,
                        pack_set@,
                        all.subrange(start as int, end as int),
                        i + 1 - start,
                    );
                    assert(all.subrange(start as int, end as int).subrange(0, i + 1 - start)
                        =~= upto);
                }
                return Err(e);
            },
        }
    }
    Ok(vouchers)
}

/// Where every account holds a card, there are as many cards as accounts.
pub proof fn lemma_cards_in_len(program_id: Seq<u8>, pack_set: Seq<u8>, accounts: Seq<AccountView>)
    requires
        cards_in(program_id, pack_set, accounts) is Ok,
    ensures
        cards_in(program_id, pack_set, accounts)->Ok_0.len() == accounts.len(),
    decreases accounts.len(),
{
    if accounts.len() > 0 {
        lemma_cards_in_len(program_id, pack_set, accounts.drop_last());
    }
}

/// A failure among the first `n` accounts is the failure of the whole list.
pub proof fn lemma_cards_in_prefix_failure(
    program_id: Seq<u8>,
    pack_set: Seq<u8>,
    accounts: Seq<AccountView>,
    n: int,
)
    requires
        0 <= n <= accounts.len(),
        cards_in(program_id, pack_set, accounts.subrange(0, n)) is Err,
    ensures
        cards_in(program_id, pack_set, accounts) == cards_in(
            program_id,
            pack_set,
            accounts.subrange(0, n),
        ),
    decreases accounts.len() - n,
{
    if n < accounts.len() {
        assert(accounts.subrange(0, n + 1).drop_last() =~= accounts.subrange(0, n));
        lemma_cards_in_prefix_failure(program_id, pack_set, accounts, n + 1);
    } else {
        assert(accounts.subrange(0, n) =~= accounts);
    }
}

/// A failure among the first `n` accounts is the failure of the whole list.
pub proof fn lemma_vouchers_in_prefix_failure(
    program_id: Seq<u8>,
    pack_set: Seq<u8>,
    accounts: Seq<AccountView>,
    n: int,
)
    requires
        0 <= n <= accounts.len(),
        vouchers_in(program_id, pack_set, accounts.subrange(0, n)) is Err,
    ensures
        vouchers_in(program_id, pack_set, accounts) == vouchers_in(
            program_id,
            pack_set,
            accounts.subrange(0, n),
        ),
    decreases accounts.len() - n,
{
    if n < accounts.len() {
        assert(accounts.subrange(0, n + 1).drop_last() =~= accounts.subrange(0, n));
        lemma_vouchers_in_prefix_failure(program_id, pack_set, accounts, n + 1);
    } else {
        assert(accounts.subrange(0, n) =~= accounts);
    }
}

} // verus!
