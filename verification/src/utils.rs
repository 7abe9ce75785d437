//! Checks that every operation makes on the accounts it is handed, and the
//! primitives that move native value and address the token program.

use vstd::prelude::*;
use crate::account::{Account, AccountView, Key};
use crate::cpi::{create_account_data, initialize_mint_data, rent_sysvar_id, signers_view};
use crate::cpi::{system_create_account, system_program_id, token_account, token_holding};
use crate::cpi::{token_initialize_mint, token_program_id, token_transfer, token_transfer_data};
use crate::cpi::{AccountMeta, InstructionView, Invocation, InvocationView, TokenHolding};
use crate::error::PackError;
use crate::math::SafeMath;

verus! {

/// Fails with `MissingRequiredSignature` unless the account co-signed.
pub fn assert_signer(account: &Account) -> (r: Result<(), PackError>)
    ensures
        account.is_signer ==> r == Ok::<(), PackError>(()),
        !account.is_signer ==> r == Err::<(), PackError>(PackError::MissingRequiredSignature),
{
    if account.is_signer {
        return Ok(());
    }
    Err(PackError::MissingRequiredSignature)
}

/// Fails with `IllegalOwner` unless `owner` owns the account.
pub fn assert_owned_by(account: &Account, owner: &Key) -> (r: Result<(), PackError>)
    ensures
        account.owner@ == owner@ ==> r == Ok::<(), PackError>(()),
        account.owner@ != owner@ ==> r == Err::<(), PackError>(PackError::IllegalOwner),
{
    if !account.owner.equals(owner) {
        Err(PackError::IllegalOwner)
    } else {
        Ok(())
    }
}

/// Fails with `InvalidArgument` unless the account's address is `key`.
pub fn assert_account_key(account_info: &Account, key: &Key) -> (r: Result<(), PackError>)
    ensures
        account_info.key@ == key@ ==> r == Ok::<(), PackError>(()),
        account_info.key@ != key@ ==> r == Err::<(), PackError>(PackError::InvalidArgument),
{
    if !account_info.key.equals(key) {
        Err(PackError::InvalidArgument)
    } else {
        Ok(())
    }
}

/// Fails with `NotRentExempt` unless the account's balance reaches
/// `minimum_balance`, the balance that keeps storage of the account's size
/// persisted.
pub fn assert_rent_exempt(minimum_balance: u64, account_info: &Account) -> (r: Result<
    (),
    PackError,
>)
    ensures
        account_info.lamports >= minimum_balance ==> r == Ok::<(), PackError>(()),
        account_info.lamports < minimum_balance ==> r == Err::<(), PackError>(
            PackError::NotRentExempt,
        ),
{
    if account_info.lamports < minimum_balance {
        Err(PackError::NotRentExempt)
    } else {
        Ok(())
    }
}

/// Moves the whole native balance of `source` to `receiver`. Where the
/// receiver's balance would leave the integer's range, nothing moves and the
/// call fails with `Overflow`.
pub fn transfer(source: &mut Account, receiver: &mut Account) -> (r: Result<(), PackError>)
    ensures
        old(receiver).lamports + old(source).lamports <= u64::MAX ==> {
            &&& r == Ok::<(), PackError>(())
            &&& final(source)@ == (AccountView { lamports: 0, ..old(source)@ })
            &&& final(receiver)@ == (AccountView {
                lamports: (old(receiver).lamports + old(source).lamports) as u64,
                ..old(receiver)@
            })
        },
        old(receiver).lamports + old(source).lamports > u64::MAX ==> {
            &&& r == Err::<(), PackError>(PackError::Overflow)
            &&& final(source)@ == old(source)@
            &&& final(receiver)@ == old(receiver)@
        },
{
    let total = receiver.lamports.error_add(source.lamports)?;
    receiver.lamports = total;
    source.lamports = 0;
    Ok(())
}

/// What the bytes of a token account say of the tokens it holds, or
/// `InvalidAccountData` where they are no initialised token account.
pub fn unpack_token_account(data: &[u8]) -> (r: Result<TokenHolding, PackError>)
    ensures
        match r {
            Ok(h) => token_account(data@) == Some((h.mint@, h.owner@, h.amount)),
            Err(e) => e == PackError::InvalidAccountData && token_account(data@) is None,
        },
{
    match token_holding(data) {
        Some(h) => Ok(h),
        None => Err(PackError::InvalidAccountData),
    }
}

/// The invocation that initialises `mint` as a token mint with the given
/// authority and decimals and no freeze authority. The mint and the rent
/// account are handed to the token program.
pub fn spl_initialize_mint(mint: &Account, mint_authority: &Account, rent: &Account, decimals: u8) -> (r:
    Invocation)
    ensures
        r@.instruction.program_id == token_program_id(),
        r@.instruction.accounts.len() == 2,
        r@.instruction.accounts[0] == (AccountMeta {
            pubkey: mint.key,
            is_signer: false,
            is_writable: true,
        }),
        r@.instruction.accounts[1].pubkey@ == rent_sysvar_id(),
        !r@.instruction.accounts[1].is_signer,
        !r@.instruction.accounts[1].is_writable,
        r@.instruction.data == initialize_mint_data(mint_authority.key@, decimals),
        r@.account_keys == seq![mint.key, rent.key],
        r@.signers_seeds.len() == 0,
{
    let ix = token_initialize_mint(&mint.key, &mint_authority.key, decimals);
    let mut account_keys: Vec<Key> = Vec::new();
    account_keys.push(mint.key);
    account_keys.push(rent.key);
    assert(account_keys@ =~= seq![mint.key, rent.key]);
    let r = Invocation::new(ix.unwrap(), account_keys, Vec::new());
    assert(r@.signers_seeds =~= Seq::<Seq<Seq<u8>>>::empty());
    r
}

/// The invocation that moves `amount` token units from `source` to
/// `destination` on the word of `authority`, signed for by the given seeds.
pub fn spl_token_transfer(
    source: &Account,
    destination: &Account,
    authority: &Account,
    amount: u64,
    signers_seeds: Vec<Vec<Vec<u8>>>,
) -> (r: Invocation)
    ensures
        r@.instruction.program_id == token_program_id(),
        r@.instruction.accounts == seq![
            (AccountMeta { pubkey: source.key, is_signer: false, is_writable: true }),
            (AccountMeta { pubkey: destination.key, is_signer: false, is_writable: true }),
            (AccountMeta { pubkey: authority.key, is_signer: true, is_writable: false }),
        ],
        r@.instruction.data == token_transfer_data(amount),
        r@.account_keys == seq![source.key, destination.key, authority.key],
        r@.signers_seeds == signers_view(signers_seeds@),
{
    let ix = token_transfer(&source.key, &destination.key, &authority.key, amount);
    let mut account_keys: Vec<Key> = Vec::new();
    account_keys.push(source.key);
    account_keys.push(destination.key);
    account_keys.push(authority.key);
    assert(account_keys@ =~= seq![source.key, destination.key, authority.key]);
    Invocation::new(ix.unwrap(), account_keys, signers_seeds)
}

/// The invocation that creates an account: the system program's
/// `CreateAccount` with the funding account and the new account, both
/// signing, handed to it.
pub open spec fn create_account_invocation(
    program_id: Seq<u8>,
    from: Key,
    to: Key,
    space: usize,
    signers_seeds: Seq<Seq<Seq<u8>>>,
    minimum_balance: u64,
) -> InvocationView {
    InvocationView {
        instruction: InstructionView {
            program_id: system_program_id(),
            accounts: seq![
                (AccountMeta { pubkey: from, is_signer: true, is_writable: true }),
                (AccountMeta { pubkey: to, is_signer: true, is_writable: true }),
            ],
            data: create_account_data(minimum_balance, space as u64, program_id),
        },
        account_keys: seq![from, to],
        signers_seeds,
    }
}

/// The invocation that creates the account `to`, funded by `from` with
/// `minimum_balance`, holding `space` bytes and owned by `program_id`, signed
/// for by the given seeds.
pub fn create_account(
    program_id: &Key,
    from: &Account,
    to: &Account,
    space: usize,
    signers_seeds: Vec<Vec<Vec<u8>>>,
    minimum_balance: u64,
) -> (r: Invocation)
    ensures
        r@ == create_account_invocation(
            program_id@,
            from.key,
            to.key,
            space,
            signers_view(signers_seeds@),
            minimum_balance,
        ),
{
    let ix = system_create_account(&from.key, &to.key, minimum_balance, space as u64, program_id);
    let mut account_keys: Vec<Key> = Vec::new();
    account_keys.push(from.key);
    account_keys.push(to.key);
    assert(account_keys@ =~= seq![from.key, to.key]);
    Invocation::new(ix, account_keys, signers_seeds)
}

} // verus!
