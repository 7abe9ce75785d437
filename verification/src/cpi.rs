//! Instructions addressed to other programs, as plain values.
//!
//! The pack program never calls another program itself. An operation that
//! needs the token program or the system program returns the instruction to
//! be invoked, and the host invokes it.

use vstd::prelude::*;
use vstd::bytes::spec_u64_to_le_bytes;
use solana_program::program_pack::Pack;
use solana_program::pubkey::Pubkey;
use crate::account::Key;

verus! {

/// One account of an instruction, with what the instruction asks of it.
#[derive(Clone, Copy, Debug, PartialEq, Eq)]
pub struct AccountMeta {
    /// The account's address.
    pub pubkey: Key,
    /// Whether the account must sign.
    pub is_signer: bool,
    /// Whether the account may be written.
    pub is_writable: bool,
}

/// An instruction for another program.
#[derive(Debug, PartialEq, Eq)]
pub struct Instruction {
    /// The program that executes the instruction.
    pub program_id: Key,
    /// The accounts handed to that program, in order.
    pub accounts: Vec<AccountMeta>,
    /// The bytes that the program interprets.
    pub data: Vec<u8>,
}

/// An instruction as a mathematical value.
pub struct InstructionView {
    pub program_id: Seq<u8>,
    pub accounts: Seq<AccountMeta>,
    pub data: Seq<u8>,
}

impl View for Instruction {
    type V = InstructionView;

    open spec fn view(&self) -> InstructionView {
        InstructionView {
            program_id: self.program_id@,
            accounts: self.accounts@,
            data: self.data@,
        }
    }
}

/// An instruction to invoke, with the accounts to hand over and the seeds of
/// the program-derived addresses that sign.
#[derive(Debug, PartialEq, Eq)]
pub struct Invocation {
    /// The instruction.
    pub instruction: Instruction,
    /// The addresses of the accounts to hand over, in order.
    pub account_keys: Vec<Key>,
    /// For each program-derived signer, its seeds.
    pub signers_seeds: Vec<Vec<Vec<u8>>>,
}

/// An invocation as a mathematical value.
pub struct InvocationView {
    pub instruction: InstructionView,
    pub account_keys: Seq<Key>,
    pub signers_seeds: Seq<Seq<Seq<u8>>>,
}

/// Lists of seeds as sequences of bytes.
pub open spec fn signers_view(signers: Seq<Vec<Vec<u8>>>) -> Seq<Seq<Seq<u8>>> {
    signers.map_values(|seeds: Vec<Vec<u8>>| seeds@.map_values(|s: Vec<u8>| s@))
}

impl View for Invocation {
    type V = InvocationView;

    open spec fn view(&self) -> InvocationView {
        InvocationView {
            instruction: self.instruction@,
            account_keys: self.account_keys@,
            signers_seeds: signers_view(self.signers_seeds@),
        }
    }
}

impl Invocation {
    /// The invocation of an instruction with the given accounts and signers.
    pub fn new(
        instruction: Instruction,
        account_keys: Vec<Key>,
        signers_seeds: Vec<Vec<Vec<u8>>>,
    ) -> (r: Invocation)
        ensures
            r@ == (InvocationView {
                instruction: instruction@,
                account_keys: account_keys@,
                signers_seeds: signers_view(signers_seeds@),
            }),
    {
        Invocation { instruction, account_keys, signers_seeds }
    }
}

/// The address of the token program.
pub open spec fn token_program_id() -> Seq<u8> {
    seq![
        6u8, 221u8, 246u8, 225u8, 215u8, 101u8, 161u8, 147u8, 217u8, 203u8, 225u8, 70u8, 206u8,
        235u8, 121u8, 172u8, 28u8, 180u8, 133u8, 237u8, 95u8, 91u8, 55u8, 145u8, 58u8, 140u8,
        245u8, 133u8, 126u8, 255u8, 0u8, 169u8,
    ]
}

/// The address of the rent sysvar.
pub open spec fn rent_sysvar_id() -> Seq<u8> {
    seq![
        6u8, 167u8, 213u8, 23u8, 25u8, 44u8, 92u8, 81u8, 33u8, 140u8, 201u8, 76u8, 61u8, 74u8,
        241u8, 127u8, 88u8, 218u8, 238u8, 8u8, 155u8, 161u8, 253u8, 68u8, 227u8, 219u8, 217u8,
        138u8, 0u8, 0u8, 0u8, 0u8,
    ]
}

/// The address of the system program: 32 zero bytes.
pub open spec fn system_program_id() -> Seq<u8> {
    Seq::new(32, |i: int| 0u8)
}

/// The data of the token program's `InitializeMint` with no freeze
/// authority: tag 0, the decimals, the mint authority, a zero byte.
pub open spec fn initialize_mint_data(mint_authority: Seq<u8>, decimals: u8) -> Seq<u8> {
    seq![0u8, decimals] + mint_authority + seq![0u8]
}

/// The data of the token program's `Transfer`: tag 3, then the amount in
/// little-endian order.
pub open spec fn token_transfer_data(amount: u64) -> Seq<u8> {
    seq![3u8] + spec_u64_to_le_bytes(amount)
}

/// The data of the system program's `CreateAccount`, as
/// `solana_program::system_instruction::create_account` serialises it.
pub uninterp spec fn create_account_data(lamports: u64, space: u64, owner: Seq<u8>) -> Seq<u8>;

/// What a token account says of the tokens it holds.
#[derive(Clone, Copy, Debug, PartialEq, Eq)]
pub struct TokenHolding {
    /// The mint whose tokens the account holds.
    pub mint: Key,
    /// The identity that controls the account.
    pub owner: Key,
    /// How many token units the account holds.
    pub amount: u64,
}

/// The mint, the owner and the amount that the bytes of a token account
/// hold, as `spl_token::state::Account::unpack` reads them: `None` where the
/// bytes are no initialised token account.
pub uninterp spec fn token_account(data: Seq<u8>) -> Option<(Seq<u8>, Seq<u8>, u64)>;

/// Calls `spl_token::state::Account::unpack` and keeps the mint, the owner
/// and the amount. The contract claims only that these are a function of
/// the bytes, named `token_account`; the call does not panic.
#[verifier::external_body]
pub(crate) fn token_holding(data: &[u8]) -> (r: Option<TokenHolding>)
    ensures
        r matches Some(h) ==> token_account(data@) == Some((h.mint@, h.owner@, h.amount)),
        r is None ==> token_account(data@) is None,
{
    let account = spl_token::state::Account::unpack(data).ok()?;
    Some(TokenHolding {
        mint: Key { bytes: account.mint.to_bytes() },
        owner: Key { bytes: account.owner.to_bytes() },
        amount: account.amount,
    })
}

/// Calls `spl_token::instruction::initialize_mint` with the token program's
/// own address and no freeze authority. With that address the call cannot
/// fail. The contract states the instruction it builds: the token program as
/// target, the mint (writable) and the rent sysvar (read-only) as accounts,
/// neither signing, and the packed `InitializeMint` as data.
#[verifier::external_body]
pub(crate) fn token_initialize_mint(mint: &Key, mint_authority: &Key, decimals: u8) -> (r: Option<
    Instruction,
>)
    ensures
        r is Some,
        r->0@.program_id == token_program_id(),
        r->0@.accounts.len() == 2,
        r->0@.accounts[0] == (AccountMeta { pubkey: *mint, is_signer: false, is_writable: true }),
        r->0@.accounts[1].pubkey@ == rent_sysvar_id(),
        !r->0@.accounts[1].is_signer,
        !r->0@.accounts[1].is_writable,
        r->0@.data == initialize_mint_data(mint_authority@, decimals),
{
    let mint = Pubkey::new_from_array(mint.bytes);
    let authority = Pubkey::new_from_array(mint_authority.bytes);
    let ix = spl_token::instruction::initialize_mint(&spl_token::id(), &mint, &authority, None, decimals).ok()?;
    let accounts = ix.accounts.iter().map(|m| AccountMeta {
        pubkey: Key { bytes: m.pubkey.to_bytes() },
        is_signer: m.is_signer,
        is_writable: m.is_writable,
    }).collect();
    Some(Instruction { program_id: Key { bytes: ix.program_id.to_bytes() }, accounts, data: ix.data })
}

/// Calls `spl_token::instruction::transfer` with the token program's own
/// address and no multisignature signers. With that address the call cannot
/// fail. The contract states the instruction it builds: the token program as
/// target, the source and the destination (writable, not signing) and the
/// authority (read-only, signing) as accounts, and the packed `Transfer` as
/// data.
#[verifier::external_body]
pub(crate) fn token_transfer(source: &Key, destination: &Key, authority: &Key, amount: u64) -> (r:
    Option<Instruction>)
    ensures
        r is Some,
        r->0@.program_id == token_program_id(),
        r->0@.accounts == seq![
            (AccountMeta { pubkey: *source, is_signer: false, is_writable: true }),
            (AccountMeta { pubkey: *destination, is_signer: false, is_writable: true }),
            (AccountMeta { pubkey: *authority, is_signer: true, is_writable: false }),
        ],
        r->0@.data == token_transfer_data(amount),
{
    let source = Pubkey::new_from_array(source.bytes);
    let destination = Pubkey::new_from_array(destination.bytes);
    let authority = Pubkey::new_from_array(authority.bytes);
    let ix = spl_token::instruction::transfer(&spl_token::id(), &source, &destination, &authority, &[], amount).ok()?;
    let accounts = ix.accounts.iter().map(|m| AccountMeta {
        pubkey: Key { bytes: m.pubkey.to_bytes() },
        is_signer: m.is_signer,
        is_writable: m.is_writable,
    }).collect();
    Some(Instruction { program_id: Key { bytes: ix.program_id.to_bytes() }, accounts, data: ix.data })
}

/// Calls `solana_program::system_instruction::create_account`. The contract
/// states the instruction it builds: the system program as target, the
/// funding account and the new account as accounts, both writable and
/// signing; the data is named, not spelled out.
#[verifier::external_body]
pub(crate) fn system_create_account(
    from: &Key,
    to: &Key,
    lamports: u64,
    space: u64,
    owner: &Key,
) -> (ix: Instruction)
    ensures
        ix@.program_id == system_program_id(),
        ix@.accounts == seq![
            (AccountMeta { pubkey: *from, is_signer: true, is_writable: true }),
            (AccountMeta { pubkey: *to, is_signer: true, is_writable: true }),
        ],
        ix@.data == create_account_data(lamports, space, owner@),
{
    let from = Pubkey::new_from_array(from.bytes);
    let to = Pubkey::new_from_array(to.bytes);
    let owner = Pubkey::new_from_array(owner.bytes);
    let ix = solana_program::system_instruction::create_account(&from, &to, lamports, space, &owner);
    let accounts = ix.accounts.iter().map(|m| AccountMeta {
        pubkey: Key { bytes: m.pubkey.to_bytes() },
        is_signer: m.is_signer,
        is_writable: m.is_writable,
    }).collect();
    Instruction { program_id: Key { bytes: ix.program_id.to_bytes() }, accounts, data: ix.data }
}

} // verus!
