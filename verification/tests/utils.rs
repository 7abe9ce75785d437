use metaplex_nft_packs::account::{Account, Key};
use metaplex_nft_packs::address::{
    find_pack_card_program_address, find_pack_voucher_program_address,
    find_proving_process_program_address, find_program_address,
};
use metaplex_nft_packs::cpi::{AccountMeta, Instruction, Invocation};
use metaplex_nft_packs::error::PackError;
use metaplex_nft_packs::processor::prove_ownership::token_program_key;
use metaplex_nft_packs::utils::{
    assert_account_key, assert_owned_by, assert_rent_exempt, assert_signer, create_account,
    spl_initialize_mint, spl_token_transfer, transfer, unpack_token_account,
};
use solana_program::program_option::COption;
use solana_program::program_pack::Pack;
use solana_program::pubkey::Pubkey;

fn key(fill: u8) -> Key {
    Key::new([fill; 32])
}

fn account(fill: u8, owner: u8, is_signer: bool, lamports: u64) -> Account {
    Account::new(key(fill), key(owner), is_signer, lamports, vec![])
}

#[test]
fn key_equality_is_by_bytes() {
    let mut bytes = [9u8; 32];
    assert!(Key::new(bytes).equals(&key(9)));
    bytes[31] = 8;
    assert!(!Key::new(bytes).equals(&key(9)));
    assert_eq!(Key::new(bytes).to_vec(), bytes.to_vec());
}

#[test]
fn signer_check() {
    assert_eq!(assert_signer(&account(1, 2, true, 0)), Ok(()));
    assert_eq!(assert_signer(&account(1, 2, false, 0)), Err(PackError::MissingRequiredSignature));
}

#[test]
fn owner_check() {
    assert_eq!(assert_owned_by(&account(1, 2, false, 0), &key(2)), Ok(()));
    assert_eq!(assert_owned_by(&account(1, 2, false, 0), &key(1)), Err(PackError::IllegalOwner));
}

#[test]
fn key_check() {
    assert_eq!(assert_account_key(&account(1, 2, false, 0), &key(1)), Ok(()));
    assert_eq!(
        assert_account_key(&account(1, 2, false, 0), &key(2)),
        Err(PackError::InvalidArgument)
    );
}

#[test]
fn rent_check() {
    assert_eq!(assert_rent_exempt(100, &account(1, 2, false, 100)), Ok(()));
    assert_eq!(assert_rent_exempt(100, &account(1, 2, false, 101)), Ok(()));
    assert_eq!(assert_rent_exempt(100, &account(1, 2, false, 99)), Err(PackError::NotRentExempt));
    assert_eq!(assert_rent_exempt(0, &account(1, 2, false, 0)), Ok(()));
}

#[test]
fn transfer_moves_the_whole_balance() {
    let mut source = account(1, 2, false, 70);
    let mut receiver = account(3, 2, false, 30);
    assert_eq!(transfer(&mut source, &mut receiver), Ok(()));
    assert_eq!(source.lamports, 0);
    assert_eq!(receiver.lamports, 100);
    assert_eq!(source.key, key(1));
    assert_eq!(receiver.key, key(3));
    assert_eq!(transfer(&mut source, &mut receiver), Ok(()));
    assert_eq!(receiver.lamports, 100);
}

#[test]
fn transfer_overflow_moves_nothing() {
    let mut source = account(1, 2, false, 2);
    let mut receiver = account(3, 2, false, u64::MAX - 1);
    assert_eq!(transfer(&mut source, &mut receiver), Err(PackError::Overflow));
    assert_eq!(source.lamports, 2);
    assert_eq!(receiver.lamports, u64::MAX - 1);
}

#[test]
fn initialize_mint_invocation() {
    let invocation = spl_initialize_mint(
        &account(1, 0, false, 0),
        &account(2, 0, false, 0),
        &account(3, 0, false, 0),
        6,
    );
    let token_program = [
        6u8, 221, 246, 225, 215, 101, 161, 147, 217, 203, 225, 70, 206, 235, 121, 172, 28, 180,
        133, 237, 95, 91, 55, 145, 58, 140, 245, 133, 126, 255, 0, 169,
    ];
    let rent_sysvar = [
        6u8, 167, 213, 23, 25, 44, 92, 81, 33, 140, 201, 76, 61, 74, 241, 127, 88, 218, 238, 8,
        155, 161, 253, 68, 227, 219, 217, 138, 0, 0, 0, 0,
    ];
    assert_eq!(invocation.instruction.program_id, Key::new(token_program));
    assert_eq!(invocation.instruction.program_id.bytes, spl_token::id().to_bytes());
    assert_eq!(token_program_key(), Key::new(token_program));
    assert_eq!(
        invocation.instruction.accounts,
        vec![
            AccountMeta { pubkey: key(1), is_signer: false, is_writable: true },
            AccountMeta { pubkey: Key::new(rent_sysvar), is_signer: false, is_writable: false },
        ]
    );
    assert_eq!(rent_sysvar, solana_program::sysvar::rent::id().to_bytes());
    let mut data = vec![0u8, 6];
    data.extend_from_slice(&[2u8; 32]);
    data.push(0);
    assert_eq!(invocation.instruction.data, data);
    assert_eq!(invocation.account_keys, vec![key(1), key(3)]);
    assert!(invocation.signers_seeds.is_empty());
}

#[test]
fn token_transfer_invocation() {
    let seeds = vec![vec![vec![1u8, 2], vec![3u8]]];
    let invocation = spl_token_transfer(
        &account(1, 0, false, 0),
        &account(2, 0, false, 0),
        &account(3, 0, false, 0),
        0x0102030405060708,
        seeds.clone(),
    );
    assert_eq!(invocation.instruction.program_id.bytes, spl_token::id().to_bytes());
    assert_eq!(
        invocation.instruction.accounts,
        vec![
            AccountMeta { pubkey: key(1), is_signer: false, is_writable: true },
            AccountMeta { pubkey: key(2), is_signer: false, is_writable: true },
            AccountMeta { pubkey: key(3), is_signer: true, is_writable: false },
        ]
    );
    assert_eq!(invocation.instruction.data, vec![3u8, 8, 7, 6, 5, 4, 3, 2, 1]);
    assert_eq!(invocation.account_keys, vec![key(1), key(2), key(3)]);
    assert_eq!(invocation.signers_seeds, seeds);
}

#[test]
fn create_account_invocation() {
    let seeds = vec![vec![vec![9u8]]];
    let invocation = create_account(
        &key(7),
        &account(1, 0, true, 0),
        &account(2, 0, false, 0),
        87,
        seeds.clone(),
        0x0a0b,
    );
    assert_eq!(invocation.instruction.program_id, key(0));
    assert_eq!(
        invocation.instruction.accounts,
        vec![
            AccountMeta { pubkey: key(1), is_signer: true, is_writable: true },
            AccountMeta { pubkey: key(2), is_signer: true, is_writable: true },
        ]
    );
    let mut data = vec![0u8, 0, 0, 0];
    data.extend_from_slice(&[0x0b, 0x0a, 0, 0, 0, 0, 0, 0]);
    data.extend_from_slice(&[87, 0, 0, 0, 0, 0, 0, 0]);
    data.extend_from_slice(&[7u8; 32]);
    assert_eq!(invocation.instruction.data, data);
    assert_eq!(invocation.account_keys, vec![key(1), key(2)]);
    assert_eq!(invocation.signers_seeds, seeds);
}

#[test]
fn token_account_is_read() {
    let token = spl_token::state::Account {
        mint: Pubkey::new_from_array([4; 32]),
        owner: Pubkey::new_from_array([5; 32]),
        amount: 3,
        delegate: COption::None,
        state: spl_token::state::AccountState::Initialized,
        is_native: COption::None,
        delegated_amount: 0,
        close_authority: COption::None,
    };
    let mut data = vec![0u8; 165];
    spl_token::state::Account::pack(token, &mut data).unwrap();
    let holding = unpack_token_account(&data).unwrap();
    assert_eq!(holding.mint, key(4));
    assert_eq!(holding.owner, key(5));
    assert_eq!(holding.amount, 3);
    assert_eq!(unpack_token_account(&data[..164]), Err(PackError::InvalidAccountData));
    assert_eq!(unpack_token_account(&[0u8; 165]), Err(PackError::InvalidAccountData));
}

#[test]
fn record_addresses_follow_the_seeds() {
    let program = key(42);
    let pack_set = key(1);
    let program_pubkey = Pubkey::new_from_array([42; 32]);
    let card = find_pack_card_program_address(&program, &pack_set, 1).unwrap();
    let (expected, bump) = Pubkey::find_program_address(
        &[b"card", &[1u8; 32], &1u32.to_le_bytes()],
        &program_pubkey,
    );
    assert_eq!(card.key.bytes, expected.to_bytes());
    assert_eq!(
        card.signer_seeds,
        vec![b"card".to_vec(), vec![1u8; 32], vec![1, 0, 0, 0], vec![bump]]
    );
    let second = find_pack_card_program_address(&program, &pack_set, 2).unwrap();
    assert_ne!(second.key, card.key);
    let voucher = find_pack_voucher_program_address(&program, &pack_set, 1).unwrap();
    let (expected, bump) = Pubkey::find_program_address(
        &[b"voucher", &[1u8; 32], &1u32.to_le_bytes()],
        &program_pubkey,
    );
    assert_eq!(voucher.key.bytes, expected.to_bytes());
    assert_eq!(voucher.signer_seeds[3], vec![bump]);
    assert_ne!(voucher.key, card.key);
    let proving = find_proving_process_program_address(&program, &pack_set, &key(8)).unwrap();
    let (expected, bump) =
        Pubkey::find_program_address(&[b"proving", &[1u8; 32], &[8u8; 32]], &program_pubkey);
    assert_eq!(proving.key.bytes, expected.to_bytes());
    assert_eq!(
        proving.signer_seeds,
        vec![b"proving".to_vec(), vec![1u8; 32], vec![8u8; 32], vec![bump]]
    );
    assert_ne!(proving.key, program);
}

#[test]
fn seeds_that_are_too_long_give_no_address() {
    assert!(find_program_address(vec![vec![0u8; 33]], &key(42)).is_none());
    assert!(find_program_address(vec![vec![0u8; 32]], &key(42)).is_some());
}

#[test]
fn invocation_keeps_its_parts() {
    let instruction = Instruction {
        program_id: key(1),
        accounts: vec![AccountMeta { pubkey: key(2), is_signer: true, is_writable: false }],
        data: vec![1, 2, 3],
    };
    let invocation = Invocation::new(instruction, vec![key(2)], vec![vec![vec![5u8]]]);
    assert_eq!(invocation.instruction.program_id, key(1));
    assert_eq!(invocation.instruction.data, vec![1, 2, 3]);
    assert_eq!(invocation.instruction.accounts.len(), 1);
    assert_eq!(invocation.account_keys, vec![key(2)]);
    assert_eq!(invocation.signers_seeds, vec![vec![vec![5u8]]]);
}
