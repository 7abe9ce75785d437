use metaplex_nft_packs::account::{Account, Key};
use metaplex_nft_packs::address::{
    find_pack_card_program_address, find_pack_voucher_program_address,
    find_proving_process_program_address,
};
use metaplex_nft_packs::error::PackError;
use metaplex_nft_packs::instruction::{
    AddCardToPackArgs, AddVoucherToPackArgs, EditPackSetArgs, InitPackSetArgs,
    NFTPacksInstruction,
};
use metaplex_nft_packs::processor::activate::activate_pack;
use metaplex_nft_packs::address::{derived_address, DerivedAddress};
use metaplex_nft_packs::cpi::TokenHolding;
use metaplex_nft_packs::processor::add_card_to_pack::{add_card_at, add_card_to_pack};
use metaplex_nft_packs::processor::add_voucher_to_pack::{
    add_voucher_at, add_voucher_to_pack, voucher_index_to_add,
};
use metaplex_nft_packs::processor::claim_pack::{claim_pack, MintRequest};
use metaplex_nft_packs::processor::deactivate::deactivate_pack;
use metaplex_nft_packs::processor::edit_pack::{apply_changes, edit_pack};
use metaplex_nft_packs::processor::init_pack::init_pack;
use metaplex_nft_packs::processor::prove_ownership::{
    prove_ownership, prove_ownership_with, token_program_key,
};
use metaplex_nft_packs::processor::{load_cards, load_vouchers, Environment, HostAction, Processor};
use metaplex_nft_packs::state::pack_card::PackCard;
use metaplex_nft_packs::state::pack_set::PackSet;
use metaplex_nft_packs::state::pack_voucher::PackVoucher;
use metaplex_nft_packs::state::proving_process::ProvingProcess;
use metaplex_nft_packs::state::{AccountType, ActionOnProve, DistributionType, PackSetState};
use solana_program::program_option::COption;
use solana_program::program_pack::Pack;
use solana_program::pubkey::Pubkey;

const RENT: u64 = 1_000;

fn key(fill: u8) -> Key {
    Key::new([fill; 32])
}

fn program() -> Key {
    key(42)
}

fn system() -> Key {
    key(0)
}

fn wallet(fill: u8, is_signer: bool) -> Account {
    Account::new(key(fill), system(), is_signer, 50_000, vec![])
}

fn blank_pack_set() -> Account {
    Account::new(key(10), program(), false, RENT, vec![0; 111])
}

fn authority() -> Account {
    wallet(11, true)
}

fn minting_authority() -> Account {
    wallet(12, true)
}

fn master() -> Account {
    wallet(13, false)
}

fn holder() -> Account {
    wallet(14, true)
}

fn init_args() -> InitPackSetArgs {
    InitPackSetArgs { name: [7; 32], total_packs: 5, mutable: true }
}

fn card_args(index: u32, probability: u64) -> AddCardToPackArgs {
    AddCardToPackArgs {
        max_supply: Some(5),
        probability_type: DistributionType::ProbabilityBased,
        probability,
        index,
    }
}

fn voucher_args(number_to_open: u32) -> AddVoucherToPackArgs {
    AddVoucherToPackArgs { max_supply: Some(5), number_to_open, action_on_prove: ActionOnProve::Burn }
}

fn initialised_pack_set() -> Account {
    let mut accounts = vec![blank_pack_set(), authority(), minting_authority()];
    init_pack(&program(), &mut accounts, init_args(), RENT).unwrap();
    accounts.remove(0)
}

fn empty_at(address: Key) -> Account {
    Account::new(address, system(), false, 0, vec![])
}

fn card_storage(index: u32) -> Account {
    empty_at(find_pack_card_program_address(&program(), &key(10), index).unwrap().key)
}

fn voucher_storage(index: u32) -> Account {
    empty_at(find_pack_voucher_program_address(&program(), &key(10), index).unwrap().key)
}

fn proving_storage() -> Account {
    empty_at(find_proving_process_program_address(&program(), &key(10), &key(14)).unwrap().key)
}

fn add_card(pack_set: &mut Account, cards: &mut Vec<Account>, args: AddCardToPackArgs) -> Result<(), PackError> {
    let mut accounts = vec![pack_set.clone(), card_storage(args.index), authority(), master()];
    accounts.extend(cards.iter().cloned());
    add_card_to_pack(&program(), &mut accounts, args, RENT)?;
    *pack_set = accounts[0].clone();
    cards.push(accounts[1].clone());
    Ok(())
}

fn add_voucher(pack_set: &mut Account, vouchers: &mut Vec<Account>, args: AddVoucherToPackArgs) -> Result<(), PackError> {
    let index = vouchers.len() as u32 + 1;
    let mut accounts = vec![pack_set.clone(), voucher_storage(index), authority(), master()];
    add_voucher_to_pack(&program(), &mut accounts, args, RENT)?;
    *pack_set = accounts[0].clone();
    vouchers.push(accounts[1].clone());
    Ok(())
}

fn activate(pack_set: &mut Account, cards: &[Account], vouchers: &[Account]) -> Result<(), PackError> {
    let mut accounts = vec![pack_set.clone(), authority()];
    accounts.extend(cards.iter().cloned());
    accounts.extend(vouchers.iter().cloned());
    activate_pack(&program(), &mut accounts)?;
    *pack_set = accounts[0].clone();
    Ok(())
}

fn token_account(mint: u8, owner: u8, amount: u64) -> Account {
    let token = spl_token::state::Account {
        mint: Pubkey::new_from_array([mint; 32]),
        owner: Pubkey::new_from_array([owner; 32]),
        amount,
        delegate: COption::None,
        state: spl_token::state::AccountState::Initialized,
        is_native: COption::None,
        delegated_amount: 0,
        close_authority: COption::None,
    };
    let mut data = vec![0u8; 165];
    spl_token::state::Account::pack(token, &mut data).unwrap();
    Account::new(key(15), token_program_key(), false, 2_000, data)
}

struct Campaign {
    pack_set: Account,
    cards: Vec<Account>,
    vouchers: Vec<Account>,
}

fn live_campaign(number_to_open: u32) -> Campaign {
    let mut pack_set = initialised_pack_set();
    let mut cards = vec![];
    let mut vouchers = vec![];
    add_card(&mut pack_set, &mut cards, card_args(1, 1_000_000)).unwrap();
    add_voucher(&mut pack_set, &mut vouchers, voucher_args(number_to_open)).unwrap();
    activate(&mut pack_set, &cards, &vouchers).unwrap();
    Campaign { pack_set, cards, vouchers }
}

fn prove(campaign: &Campaign, proving: &mut Account, entropy: &[u8]) -> Result<bool, PackError> {
    let mut accounts = vec![
        campaign.pack_set.clone(),
        campaign.vouchers[0].clone(),
        proving.clone(),
        holder(),
        token_account(13, 14, 1),
    ];
    let receipt = prove_ownership(&program(), &mut accounts, entropy, RENT)?;
    *proving = accounts[2].clone();
    Ok(receipt.complete)
}

fn claim_accounts(campaign: &Campaign, proving: &Account, minter: Account) -> Vec<Account> {
    let mut accounts = vec![
        campaign.pack_set.clone(),
        proving.clone(),
        holder(),
        minter,
        campaign.vouchers[0].clone(),
    ];
    accounts.extend(campaign.cards.iter().cloned());
    accounts
}

#[test]
fn init_pack_stores_a_fresh_pack_set() {
    let mut accounts = vec![blank_pack_set(), authority(), minting_authority()];
    assert_eq!(init_pack(&program(), &mut accounts, init_args(), RENT), Ok(()));
    let set = PackSet::unpack(&accounts[0].data).unwrap();
    assert_eq!(set.account_type, AccountType::PackSet);
    assert_eq!(set.name, [7; 32]);
    assert_eq!(set.authority, key(11));
    assert_eq!(set.minting_authority, key(12));
    assert_eq!(set.total_packs, 5);
    assert_eq!(set.pack_cards, 0);
    assert_eq!(set.pack_vouchers, 0);
    assert!(set.mutable);
    assert_eq!(set.pack_state, PackSetState::NotActivated);
    assert_eq!(accounts[1], authority());
    assert_eq!(accounts[2], minting_authority());
}

#[test]
fn init_pack_failures() {
    let run = |mut accounts: Vec<Account>, rent: u64| {
        let before = accounts.clone();
        let result = init_pack(&program(), &mut accounts, init_args(), rent);
        assert_eq!(accounts, before);
        result
    };
    assert_eq!(run(vec![blank_pack_set(), authority()], RENT), Err(PackError::NotEnoughAccountKeys));
    assert_eq!(
        run(vec![blank_pack_set(), wallet(11, false), minting_authority()], RENT),
        Err(PackError::MissingRequiredSignature)
    );
    let mut foreign = blank_pack_set();
    foreign.owner = system();
    assert_eq!(
        run(vec![foreign, authority(), minting_authority()], RENT),
        Err(PackError::IllegalOwner)
    );
    assert_eq!(
        run(vec![blank_pack_set(), authority(), minting_authority()], RENT + 1),
        Err(PackError::NotRentExempt)
    );
    assert_eq!(
        run(vec![initialised_pack_set(), authority(), minting_authority()], RENT),
        Err(PackError::AlreadyInitialized)
    );
    let mut short = blank_pack_set();
    short.data = vec![0; 110];
    assert_eq!(
        run(vec![short, authority(), minting_authority()], RENT),
        Err(PackError::InvalidAccountData)
    );
}

#[test]
fn add_card_to_pack_success() {
    let mut pack_set = initialised_pack_set();
    let mut accounts = vec![pack_set.clone(), card_storage(1), authority(), master()];
    let allocation = add_card_to_pack(&program(), &mut accounts, card_args(1, 1000000), RENT).unwrap();
    let pack_card = PackCard::unpack(&accounts[1].data).unwrap();
    assert_eq!(pack_card.account_type, AccountType::PackCard);
    assert_eq!(pack_card.minted, 0);
    assert_eq!(pack_card.index, 1);
    assert_eq!(pack_card.pack_set, key(10));
    assert_eq!(pack_card.master, key(13));
    assert_eq!(pack_card.max_supply, Some(5));
    assert_eq!(pack_card.probability, 1000000);
    assert_eq!(accounts[1].owner, program());
    pack_set = accounts[0].clone();
    assert_eq!(PackSet::unpack(&pack_set.data).unwrap().pack_cards, 1);
    assert_eq!(allocation.instruction.program_id, system());
    assert_eq!(allocation.account_keys, vec![key(11), accounts[1].key]);
    let address = find_pack_card_program_address(&program(), &key(10), 1).unwrap();
    assert_eq!(allocation.signers_seeds, vec![address.signer_seeds]);
    let mut data = vec![0u8, 0, 0, 0];
    data.extend_from_slice(&RENT.to_le_bytes());
    data.extend_from_slice(&87u64.to_le_bytes());
    data.extend_from_slice(&[42u8; 32]);
    assert_eq!(allocation.instruction.data, data);
}

#[test]
fn fail_invalid_index() {
    let mut pack_set = initialised_pack_set();
    let mut cards = vec![];
    add_card(&mut pack_set, &mut cards, card_args(1, 1000000)).unwrap();
    let mut accounts = vec![pack_set.clone(), card_storage(1), authority(), master()];
    accounts.extend(cards.iter().cloned());
    let before = accounts.clone();
    let result = add_card_to_pack(&program(), &mut accounts, card_args(1, 1000000), RENT);
    assert_eq!(result.unwrap_err(), PackError::InvalidArgument);
    assert_eq!(accounts, before);
    assert_eq!(PackSet::unpack(&accounts[0].data).unwrap().pack_cards, 1);
}

#[test]
fn cards_register_in_sequence_only() {
    let mut pack_set = initialised_pack_set();
    let mut cards = vec![];
    assert_eq!(add_card(&mut pack_set, &mut cards, card_args(2, 10)), Err(PackError::InvalidArgument));
    assert_eq!(add_card(&mut pack_set, &mut cards, card_args(0, 10)), Err(PackError::InvalidArgument));
    assert_eq!(add_card(&mut pack_set, &mut cards, card_args(1, 300_000)), Ok(()));
    assert_eq!(add_card(&mut pack_set, &mut cards, card_args(3, 10)), Err(PackError::InvalidArgument));
    assert_eq!(add_card(&mut pack_set, &mut cards, card_args(2, 300_000)), Ok(()));
    assert_eq!(add_card(&mut pack_set, &mut cards, card_args(3, 400_000)), Ok(()));
    assert_eq!(PackSet::unpack(&pack_set.data).unwrap().pack_cards, 3);
    assert_eq!(cards.len(), 3);
    let loaded = load_cards(&program(), &key(10), &cards, 0, 3).unwrap();
    assert_eq!(loaded[0].index, 1);
    assert_eq!(loaded[1].index, 2);
    assert_eq!(loaded[2].index, 3);
    assert_eq!(loaded[2].probability, 400_000);
}

#[test]
fn card_weights_must_fit_the_pool() {
    let mut pack_set = initialised_pack_set();
    let mut cards = vec![];
    assert_eq!(
        add_card(&mut pack_set, &mut cards, card_args(1, 1_000_001)),
        Err(PackError::ProbabilityPoolExceeded)
    );
    add_card(&mut pack_set, &mut cards, card_args(1, 600_000)).unwrap();
    assert_eq!(
        add_card(&mut pack_set, &mut cards, card_args(2, 400_001)),
        Err(PackError::ProbabilityPoolExceeded)
    );
    assert_eq!(PackSet::unpack(&pack_set.data).unwrap().pack_cards, 1);
    assert_eq!(add_card(&mut pack_set, &mut cards, card_args(2, 400_000)), Ok(()));
    assert_eq!(
        add_card(&mut pack_set, &mut cards, card_args(3, 1)),
        Err(PackError::ProbabilityPoolExceeded)
    );
    assert_eq!(add_card(&mut pack_set, &mut cards, card_args(3, 0)), Ok(()));
}

#[test]
fn add_card_failures() {
    let pack_set = initialised_pack_set();
    let run = |mut accounts: Vec<Account>, args: AddCardToPackArgs| {
        let before = accounts.clone();
        let result = add_card_to_pack(&program(), &mut accounts, args, RENT);
        assert_eq!(accounts, before);
        result.unwrap_err()
    };
    assert_eq!(
        run(vec![pack_set.clone(), card_storage(1), authority()], card_args(1, 1)),
        PackError::NotEnoughAccountKeys
    );
    assert_eq!(
        run(vec![pack_set.clone(), card_storage(1), wallet(11, false), master()], card_args(1, 1)),
        PackError::MissingRequiredSignature
    );
    assert_eq!(
        run(vec![pack_set.clone(), card_storage(1), wallet(12, true), master()], card_args(1, 1)),
        PackError::MissingRequiredSignature
    );
    let mut foreign = pack_set.clone();
    foreign.owner = system();
    assert_eq!(
        run(vec![foreign, card_storage(1), authority(), master()], card_args(1, 1)),
        PackError::IllegalOwner
    );
    assert_eq!(
        run(vec![blank_pack_set(), card_storage(1), authority(), master()], card_args(1, 1)),
        PackError::InvalidAccountData
    );
    assert_eq!(
        run(vec![pack_set.clone(), card_storage(2), authority(), master()], card_args(1, 1)),
        PackError::InvalidArgument
    );
    let mut taken = card_storage(1);
    taken.data = vec![2; 87];
    assert_eq!(
        run(vec![pack_set.clone(), taken, authority(), master()], card_args(1, 1)),
        PackError::AlreadyInitialized
    );
    let mut set = PackSet::unpack(&pack_set.data).unwrap();
    set.mutable = false;
    let immutable = pack_set.with_data(set.pack());
    assert_eq!(
        run(vec![immutable, card_storage(1), authority(), master()], card_args(1, 1)),
        PackError::ImmutablePackSet
    );
    set.mutable = true;
    set.pack_state = PackSetState::Activated;
    let active = pack_set.with_data(set.pack());
    assert_eq!(
        run(vec![active, card_storage(1), authority(), master()], card_args(1, 1)),
        PackError::WrongPackState
    );
    set.pack_state = PackSetState::NotActivated;
    set.pack_cards = 1;
    let one_card = pack_set.with_data(set.pack());
    assert_eq!(
        run(vec![one_card.clone(), card_storage(2), authority(), master()], card_args(2, 1)),
        PackError::NotEnoughAccountKeys
    );
    assert_eq!(
        run(vec![one_card.clone(), card_storage(2), authority(), master(), wallet(9, false)], card_args(2, 1)),
        PackError::IllegalOwner
    );
    set.pack_cards = u32::MAX;
    let full = pack_set.with_data(set.pack());
    assert_eq!(
        run(vec![full, card_storage(1), authority(), master()], card_args(1, 1)),
        PackError::Overflow
    );
}

#[test]
fn add_voucher_to_pack_success() {
    let pack_set = initialised_pack_set();
    let mut accounts = vec![pack_set, voucher_storage(1), authority(), master()];
    let allocation = add_voucher_to_pack(
        &program(),
        &mut accounts,
        AddVoucherToPackArgs {
            max_supply: Some(5),
            number_to_open: 4,
            action_on_prove: ActionOnProve::Burn,
        },
        RENT,
    )
    .unwrap();
    let pack_voucher = PackVoucher::unpack(&accounts[1].data).unwrap();
    assert_eq!(pack_voucher.account_type, AccountType::PackVoucher);
    assert_eq!(pack_voucher.index, 1);
    assert_eq!(pack_voucher.number_to_open, 4);
    assert_eq!(pack_voucher.action_on_prove, ActionOnProve::Burn);
    assert_eq!(pack_voucher.max_supply, Some(5));
    assert_eq!(pack_voucher.pack_set, key(10));
    assert_eq!(pack_voucher.master, key(13));
    assert_eq!(accounts[1].owner, program());
    assert_eq!(PackSet::unpack(&accounts[0].data).unwrap().pack_vouchers, 1);
    let address = find_pack_voucher_program_address(&program(), &key(10), 1).unwrap();
    assert_eq!(allocation.signers_seeds, vec![address.signer_seeds]);
    assert_eq!(allocation.account_keys, vec![key(11), address.key]);
}

#[test]
fn add_voucher_failures() {
    let pack_set = initialised_pack_set();
    let run = |mut accounts: Vec<Account>| {
        let before = accounts.clone();
        let result = add_voucher_to_pack(&program(), &mut accounts, voucher_args(1), RENT);
        assert_eq!(accounts, before);
        result.unwrap_err()
    };
    assert_eq!(run(vec![pack_set.clone()]), PackError::NotEnoughAccountKeys);
    assert_eq!(
        run(vec![pack_set.clone(), voucher_storage(1), wallet(11, false), master()]),
        PackError::MissingRequiredSignature
    );
    assert_eq!(
        run(vec![pack_set.clone(), voucher_storage(2), authority(), master()]),
        PackError::InvalidArgument
    );
    assert_eq!(
        run(vec![pack_set.clone(), card_storage(1), authority(), master()]),
        PackError::InvalidArgument
    );
    let mut taken = voucher_storage(1);
    taken.data = vec![3];
    assert_eq!(
        run(vec![pack_set.clone(), taken, authority(), master()]),
        PackError::AlreadyInitialized
    );
}

#[test]
fn edit_changes_the_given_fields() {
    let mut accounts = vec![initialised_pack_set(), authority()];
    let args = EditPackSetArgs { name: Some([8; 32]), total_packs: Some(9), mutable: None };
    assert_eq!(edit_pack(&program(), &mut accounts, args), Ok(()));
    let set = PackSet::unpack(&accounts[0].data).unwrap();
    assert_eq!(set.name, [8; 32]);
    assert_eq!(set.total_packs, 9);
    assert!(set.mutable);
    assert_eq!(set.authority, key(11));
    let args = EditPackSetArgs { name: None, total_packs: None, mutable: Some(false) };
    assert_eq!(edit_pack(&program(), &mut accounts, args), Ok(()));
    assert!(!PackSet::unpack(&accounts[0].data).unwrap().mutable);
    let args = EditPackSetArgs { name: Some([9; 32]), total_packs: None, mutable: None };
    assert_eq!(edit_pack(&program(), &mut accounts, args), Err(PackError::ImmutablePackSet));
}

#[test]
fn edit_rejects_same_values_and_shrinking() {
    let mut set = PackSet::unpack(&initialised_pack_set().data).unwrap();
    set.pack_cards = 3;
    let before = set;
    let none = EditPackSetArgs { name: None, total_packs: None, mutable: None };
    assert_eq!(
        apply_changes(&mut set, EditPackSetArgs { name: Some([7; 32]), ..none }),
        Err(PackError::CantSetTheSameValue)
    );
    assert_eq!(
        apply_changes(&mut set, EditPackSetArgs { total_packs: Some(5), ..none }),
        Err(PackError::CantSetTheSameValue)
    );
    assert_eq!(
        apply_changes(&mut set, EditPackSetArgs { mutable: Some(true), ..none }),
        Err(PackError::CantSetTheSameValue)
    );
    assert_eq!(
        apply_changes(&mut set, EditPackSetArgs { total_packs: Some(2), ..none }),
        Err(PackError::SmallTotalPacksAmount)
    );
    assert_eq!(
        apply_changes(&mut set, EditPackSetArgs { name: Some([8; 32]), total_packs: Some(2), mutable: None }),
        Err(PackError::SmallTotalPacksAmount)
    );
    assert_eq!(
        apply_changes(&mut set, EditPackSetArgs { name: Some([8; 32]), total_packs: Some(6), mutable: Some(true) }),
        Err(PackError::CantSetTheSameValue)
    );
    assert_eq!(set, before);
    assert_eq!(apply_changes(&mut set, EditPackSetArgs { total_packs: Some(3), ..none }), Ok(()));
    assert_eq!(set.total_packs, 3);
    assert_eq!(apply_changes(&mut set, none), Ok(()));
    assert_eq!(
        apply_changes(&mut set, EditPackSetArgs { name: Some([8; 32]), total_packs: Some(4), mutable: Some(false) }),
        Ok(())
    );
    assert_eq!(set.name, [8; 32]);
    assert_eq!(set.total_packs, 4);
    assert!(!set.mutable);
    assert_eq!(set.pack_cards, 3);
}

#[test]
fn edit_failures() {
    let pack_set = initialised_pack_set();
    let args = EditPackSetArgs { name: Some([8; 32]), total_packs: None, mutable: None };
    let run = |mut accounts: Vec<Account>| {
        let before = accounts.clone();
        let result = edit_pack(&program(), &mut accounts, args);
        assert_eq!(accounts, before);
        result.unwrap_err()
    };
    assert_eq!(run(vec![pack_set.clone()]), PackError::NotEnoughAccountKeys);
    assert_eq!(run(vec![pack_set.clone(), wallet(11, false)]), PackError::MissingRequiredSignature);
    assert_eq!(run(vec![pack_set.clone(), wallet(12, true)]), PackError::MissingRequiredSignature);
    assert_eq!(run(vec![blank_pack_set(), authority()]), PackError::InvalidAccountData);
    let mut set = PackSet::unpack(&pack_set.data).unwrap();
    set.pack_state = PackSetState::Activated;
    assert_eq!(run(vec![pack_set.with_data(set.pack()), authority()]), PackError::WrongPackState);
    set.mutable = false;
    assert_eq!(run(vec![pack_set.with_data(set.pack()), authority()]), PackError::ImmutablePackSet);
}

#[test]
fn activation_with_everything_registered() {
    let mut pack_set = initialised_pack_set();
    let mut cards = vec![];
    let mut vouchers = vec![];
    add_card(&mut pack_set, &mut cards, card_args(1, 500_000)).unwrap();
    add_card(&mut pack_set, &mut cards, card_args(2, 500_000)).unwrap();
    add_voucher(&mut pack_set, &mut vouchers, voucher_args(1)).unwrap();
    add_voucher(&mut pack_set, &mut vouchers, voucher_args(2)).unwrap();
    let loaded = load_vouchers(&program(), &key(10), &vouchers, 0, 2).unwrap();
    assert_eq!(loaded[1].index, 2);
    assert_eq!(activate(&mut pack_set, &cards, &vouchers), Ok(()));
    assert_eq!(PackSet::unpack(&pack_set.data).unwrap().pack_state, PackSetState::Activated);
    assert_eq!(activate(&mut pack_set, &cards, &vouchers), Err(PackError::WrongPackState));
    assert_eq!(
        add_card(&mut pack_set, &mut cards, card_args(3, 0)),
        Err(PackError::WrongPackState)
    );
    let mut edit = vec![pack_set.clone(), authority()];
    let args = EditPackSetArgs { name: Some([8; 32]), total_packs: None, mutable: None };
    assert_eq!(edit_pack(&program(), &mut edit, args), Err(PackError::WrongPackState));
}

#[test]
fn activation_fails_on_a_gap() {
    let mut pack_set = initialised_pack_set();
    let mut cards = vec![];
    let mut vouchers = vec![];
    add_card(&mut pack_set, &mut cards, card_args(1, 100)).unwrap();
    add_card(&mut pack_set, &mut cards, card_args(2, 100)).unwrap();
    add_card(&mut pack_set, &mut cards, card_args(3, 100)).unwrap();
    add_voucher(&mut pack_set, &mut vouchers, voucher_args(1)).unwrap();
    let before = pack_set.clone();
    let one_and_three = vec![cards[0].clone(), cards[2].clone()];
    assert_eq!(activate(&mut pack_set, &one_and_three, &vouchers), Err(PackError::WrongPackState));
    let three_twice = vec![cards[0].clone(), cards[2].clone(), cards[2].clone()];
    assert_eq!(activate(&mut pack_set, &three_twice, &vouchers), Err(PackError::WrongPackState));
    assert_eq!(activate(&mut pack_set, &cards, &[]), Err(PackError::WrongPackState));
    assert_eq!(pack_set, before);
    let mut lost = cards.clone();
    lost[1] = empty_at(cards[1].key);
    lost[1].owner = program();
    assert_eq!(activate(&mut pack_set, &lost, &vouchers), Err(PackError::InvalidAccountData));
    assert_eq!(activate(&mut pack_set, &cards, &vouchers), Ok(()));
}

#[test]
fn activation_failures() {
    let pack_set = initialised_pack_set();
    let run = |mut accounts: Vec<Account>| {
        let before = accounts.clone();
        let result = activate_pack(&program(), &mut accounts);
        assert_eq!(accounts, before);
        result.unwrap_err()
    };
    assert_eq!(run(vec![pack_set.clone()]), PackError::NotEnoughAccountKeys);
    assert_eq!(run(vec![pack_set.clone(), wallet(11, false)]), PackError::MissingRequiredSignature);
    assert_eq!(run(vec![pack_set.clone(), wallet(12, true)]), PackError::MissingRequiredSignature);
    let mut foreign = pack_set.clone();
    foreign.owner = system();
    assert_eq!(run(vec![foreign, authority()]), PackError::IllegalOwner);
    assert_eq!(run(vec![pack_set.clone(), authority(), master()]), PackError::WrongPackState);
}

#[test]
fn deactivate_twice_fails_the_second_time() {
    let campaign = live_campaign(1);
    let mut accounts = vec![campaign.pack_set.clone(), authority()];
    assert_eq!(deactivate_pack(&program(), &mut accounts), Ok(()));
    assert_eq!(
        PackSet::unpack(&accounts[0].data).unwrap().pack_state,
        PackSetState::Deactivated
    );
    let before = accounts.clone();
    assert_eq!(deactivate_pack(&program(), &mut accounts), Err(PackError::PackAlreadyDeactivated));
    assert_eq!(accounts, before);
    let mut pack_set = accounts[0].clone();
    assert_eq!(
        activate(&mut pack_set, &campaign.cards, &campaign.vouchers),
        Err(PackError::WrongPackState)
    );
}

#[test]
fn deactivate_failures() {
    let mut fresh = vec![initialised_pack_set(), authority()];
    assert_eq!(deactivate_pack(&program(), &mut fresh), Err(PackError::PackAlreadyDeactivated));
    let campaign = live_campaign(1);
    let run = |mut accounts: Vec<Account>| {
        let before = accounts.clone();
        let result = deactivate_pack(&program(), &mut accounts);
        assert_eq!(accounts, before);
        result.unwrap_err()
    };
    assert_eq!(run(vec![campaign.pack_set.clone()]), PackError::NotEnoughAccountKeys);
    assert_eq!(
        run(vec![campaign.pack_set.clone(), wallet(11, false)]),
        PackError::MissingRequiredSignature
    );
    assert_eq!(
        run(vec![campaign.pack_set.clone(), wallet(12, true)]),
        PackError::MissingRequiredSignature
    );
    assert_eq!(run(vec![blank_pack_set(), authority()]), PackError::InvalidAccountData);
}

#[test]
fn proofs_accumulate_and_the_seed_stays() {
    let campaign = live_campaign(2);
    let mut proving = proving_storage();
    let mut accounts = vec![
        campaign.pack_set.clone(),
        campaign.vouchers[0].clone(),
        proving.clone(),
        holder(),
        token_account(13, 14, 1),
    ];
    let receipt = prove_ownership(&program(), &mut accounts, b"slot-hash", RENT).unwrap();
    assert!(!receipt.complete);
    assert_eq!(receipt.action_on_prove, ActionOnProve::Burn);
    let allocation = receipt.allocation.unwrap();
    assert_eq!(allocation.account_keys, vec![key(14), proving.key]);
    let address = find_proving_process_program_address(&program(), &key(10), &key(14)).unwrap();
    assert_eq!(allocation.signers_seeds, vec![address.signer_seeds]);
    assert_eq!(accounts[2].owner, program());
    proving = accounts[2].clone();
    let process = ProvingProcess::unpack(&proving.data).unwrap();
    assert_eq!(process.proved_vouchers, 1);
    assert_eq!(process.seed, 4201434622873362248);
    assert_eq!(process.pack_set, key(10));
    assert_eq!(process.holder, key(14));
    assert_eq!(process.voucher, campaign.vouchers[0].key);
    assert_eq!(process.selected_card, None);
    accounts[2] = proving.clone();
    let receipt = prove_ownership(&program(), &mut accounts, b"other-hash", RENT).unwrap();
    assert!(receipt.complete);
    assert!(receipt.allocation.is_none());
    let process = ProvingProcess::unpack(&accounts[2].data).unwrap();
    assert_eq!(process.proved_vouchers, 2);
    assert_eq!(process.seed, 4201434622873362248);
    let before = accounts.clone();
    assert_eq!(
        prove_ownership(&program(), &mut accounts, b"third", RENT).unwrap_err(),
        PackError::WrongProvingState
    );
    assert_eq!(accounts, before);
}

#[test]
fn prove_ownership_failures() {
    let campaign = live_campaign(1);
    let good = vec![
        campaign.pack_set.clone(),
        campaign.vouchers[0].clone(),
        proving_storage(),
        holder(),
        token_account(13, 14, 1),
    ];
    let run = |change: &dyn Fn(&mut Vec<Account>)| {
        let mut accounts = good.clone();
        change(&mut accounts);
        let before = accounts.clone();
        let result = prove_ownership(&program(), &mut accounts, b"e", RENT);
        assert_eq!(accounts, before);
        result.unwrap_err()
    };
    assert_eq!(run(&|a| { a.pop(); }), PackError::NotEnoughAccountKeys);
    assert_eq!(run(&|a| a[3].is_signer = false), PackError::MissingRequiredSignature);
    assert_eq!(run(&|a| a[0].owner = system()), PackError::IllegalOwner);
    assert_eq!(run(&|a| a[0] = initialised_pack_set()), PackError::WrongPackState);
    assert_eq!(run(&|a| a[1].owner = system()), PackError::IllegalOwner);
    assert_eq!(run(&|a| a[1] = campaign.cards[0].clone()), PackError::InvalidAccountData);
    assert_eq!(run(&|a| a[4].owner = system()), PackError::IllegalOwner);
    assert_eq!(run(&|a| a[4].data = vec![0; 165]), PackError::InvalidAccountData);
    assert_eq!(run(&|a| a[4] = token_account(13, 14, 0)), PackError::InvalidArgument);
    assert_eq!(run(&|a| a[4] = token_account(13, 16, 1)), PackError::InvalidArgument);
    assert_eq!(run(&|a| a[4] = token_account(9, 14, 1)), PackError::InvalidArgument);
    assert_eq!(run(&|a| a[2].key = key(99)), PackError::InvalidArgument);
    assert_eq!(run(&|a| a[2].data = vec![4; 114]), PackError::IllegalOwner);
    assert_eq!(
        run(&|a| {
            a[2].owner = program();
            a[2].data = vec![0; 114];
        }),
        PackError::InvalidAccountData
    );
    assert_eq!(
        run(&|a| {
            a[2].owner = program();
            a[2].data = ProvingProcess::start(key(10), key(14), key(77), 5).pack();
        }),
        PackError::InvalidArgument
    );
}

#[test]
fn mint_edition_with_card_success() {
    let campaign = live_campaign(1);
    let mut proving = proving_storage();
    proving.lamports = RENT;
    assert_eq!(prove(&campaign, &mut proving, b"slot-hash"), Ok(true));
    let mut accounts = claim_accounts(&campaign, &proving, minting_authority());
    let request = claim_pack(&program(), &mut accounts).unwrap();
    assert_eq!(request, MintRequest { card_index: 1, master: key(13), holder: key(14) });
    let card = PackCard::unpack(&accounts[5].data).unwrap();
    assert_eq!(card.minted, 1);
    assert_eq!(card.index, 1);
    assert!(accounts[1].data.is_empty());
    assert_eq!(accounts[1].lamports, 0);
    assert_eq!(accounts[2].lamports, 50_000 + RENT);
    assert_eq!(accounts[0], campaign.pack_set);
    assert_eq!(accounts[3], minting_authority());
    assert_eq!(accounts[4], campaign.vouchers[0]);
    let before = accounts.clone();
    assert_eq!(claim_pack(&program(), &mut accounts).unwrap_err(), PackError::InvalidAccountData);
    assert_eq!(accounts, before);
}

#[test]
fn fail_invalid_minting_authority() {
    let campaign = live_campaign(1);
    let mut proving = proving_storage();
    prove(&campaign, &mut proving, b"slot-hash").unwrap();
    let mut accounts = claim_accounts(&campaign, &proving, wallet(99, true));
    let before = accounts.clone();
    let result = claim_pack(&program(), &mut accounts);
    assert_eq!(result.unwrap_err(), PackError::InvalidArgument);
    assert_eq!(accounts, before);
    let mut accounts = claim_accounts(&campaign, &proving, authority());
    assert_eq!(claim_pack(&program(), &mut accounts).unwrap_err(), PackError::InvalidArgument);
}

#[test]
fn claim_selects_by_the_recorded_seed() {
    let mut pack_set = initialised_pack_set();
    let mut cards = vec![];
    let mut vouchers = vec![];
    add_card(&mut pack_set, &mut cards, card_args(1, 362_248)).unwrap();
    add_card(&mut pack_set, &mut cards, card_args(2, 1)).unwrap();
    add_card(&mut pack_set, &mut cards, card_args(3, 637_751)).unwrap();
    add_voucher(&mut pack_set, &mut vouchers, voucher_args(1)).unwrap();
    activate(&mut pack_set, &cards, &vouchers).unwrap();
    let mut campaign = Campaign { pack_set, cards, vouchers };
    let mut proving = proving_storage();
    prove(&campaign, &mut proving, b"slot-hash").unwrap();
    let mut accounts = claim_accounts(&campaign, &proving, minting_authority());
    let request = claim_pack(&program(), &mut accounts).unwrap();
    assert_eq!(request.card_index, 2);
    assert_eq!(PackCard::unpack(&accounts[6].data).unwrap().minted, 1);
    assert_eq!(accounts[5], campaign.cards[0]);
    assert_eq!(accounts[7], campaign.cards[2]);
    let mut second = PackCard::unpack(&campaign.cards[1].data).unwrap();
    second.minted = 5;
    campaign.cards[1] = campaign.cards[1].with_data(second.pack());
    let mut accounts = claim_accounts(&campaign, &proving, minting_authority());
    assert_eq!(claim_pack(&program(), &mut accounts).unwrap().card_index, 3);
    let mut third = PackCard::unpack(&campaign.cards[2].data).unwrap();
    third.minted = 5;
    campaign.cards[2] = campaign.cards[2].with_data(third.pack());
    let mut accounts = claim_accounts(&campaign, &proving, minting_authority());
    assert_eq!(claim_pack(&program(), &mut accounts).unwrap().card_index, 1);
    let mut first = PackCard::unpack(&campaign.cards[0].data).unwrap();
    first.minted = 5;
    campaign.cards[0] = campaign.cards[0].with_data(first.pack());
    let mut accounts = claim_accounts(&campaign, &proving, minting_authority());
    let before = accounts.clone();
    assert_eq!(claim_pack(&program(), &mut accounts).unwrap_err(), PackError::NoCardsLeft);
    assert_eq!(accounts, before);
}

#[test]
fn claim_failures() {
    let campaign = live_campaign(2);
    let mut proving = proving_storage();
    assert_eq!(prove(&campaign, &mut proving, b"slot-hash"), Ok(false));
    let incomplete = claim_accounts(&campaign, &proving, minting_authority());
    let mut accounts = incomplete.clone();
    assert_eq!(claim_pack(&program(), &mut accounts).unwrap_err(), PackError::WrongProvingState);
    assert_eq!(accounts, incomplete);
    assert_eq!(prove(&campaign, &mut proving, b"slot-hash"), Ok(true));
    let good = claim_accounts(&campaign, &proving, minting_authority());
    let run = |change: &dyn Fn(&mut Vec<Account>)| {
        let mut accounts = good.clone();
        change(&mut accounts);
        let before = accounts.clone();
        let result = claim_pack(&program(), &mut accounts);
        assert_eq!(accounts, before);
        result.unwrap_err()
    };
    assert_eq!(run(&|a| a.truncate(4)), PackError::NotEnoughAccountKeys);
    assert_eq!(run(&|a| a.truncate(5)), PackError::NotEnoughAccountKeys);
    assert_eq!(run(&|a| a[3].is_signer = false), PackError::MissingRequiredSignature);
    assert_eq!(run(&|a| a[0].owner = system()), PackError::IllegalOwner);
    assert_eq!(run(&|a| a[1].owner = system()), PackError::IllegalOwner);
    assert_eq!(run(&|a| a[1].data = vec![]), PackError::InvalidAccountData);
    assert_eq!(run(&|a| a[2] = wallet(16, true)), PackError::InvalidArgument);
    assert_eq!(run(&|a| a[4].key = key(98)), PackError::InvalidArgument);
    assert_eq!(run(&|a| a[4] = a[5].clone()), PackError::InvalidAccountData);
    assert_eq!(run(&|a| a[5] = a[4].clone()), PackError::InvalidAccountData);
    assert_eq!(
        run(&|a| {
            a[1].lamports = 1;
            a[2].lamports = u64::MAX;
        }),
        PackError::Overflow
    );
    assert_eq!(
        run(&|a| {
            let mut card = PackCard::unpack(&a[5].data).unwrap();
            card.index = 2;
            a[5].data = card.pack();
        }),
        PackError::InvalidArgument
    );
    assert_eq!(
        run(&|a| {
            let mut card = PackCard::unpack(&a[5].data).unwrap();
            card.max_supply = None;
            card.minted = u32::MAX;
            a[5].data = card.pack();
        }),
        PackError::Overflow
    );
    let mut deactivated = vec![campaign.pack_set.clone(), authority()];
    deactivate_pack(&program(), &mut deactivated).unwrap();
    assert_eq!(run(&|a| a[0] = deactivated[0].clone()), PackError::WrongPackState);
}

#[test]
fn instructions_are_dispatched() {
    let environment = Environment { minimum_balance: RENT, entropy: b"slot-hash".to_vec() };
    let mut accounts = vec![blank_pack_set(), authority(), minting_authority()];
    assert!(NFTPacksInstruction::InitPack(init_args()).is_supported());
    assert_eq!(
        Processor::process_instruction(
            &program(),
            &mut accounts,
            NFTPacksInstruction::InitPack(init_args()),
            &environment
        ),
        Ok(HostAction::Nothing)
    );
    let pack_set = accounts[0].clone();
    let mut accounts = vec![pack_set, card_storage(1), authority(), master()];
    let action = Processor::process_instruction(
        &program(),
        &mut accounts,
        NFTPacksInstruction::AddCardToPack(card_args(1, 1_000_000)),
        &environment,
    )
    .unwrap();
    assert!(matches!(action, HostAction::Allocate(_)));
    let card = accounts[1].clone();
    let mut accounts = vec![accounts[0].clone(), voucher_storage(1), authority(), master()];
    let action = Processor::process_instruction(
        &program(),
        &mut accounts,
        NFTPacksInstruction::AddVoucherToPack(voucher_args(1)),
        &environment,
    )
    .unwrap();
    assert!(matches!(action, HostAction::Allocate(_)));
    let voucher = accounts[1].clone();
    let mut accounts = vec![accounts[0].clone(), authority()];
    let edit = EditPackSetArgs { name: None, total_packs: Some(6), mutable: None };
    assert_eq!(
        Processor::process_instruction(&program(), &mut accounts, NFTPacksInstruction::EditPack(edit), &environment),
        Ok(HostAction::Nothing)
    );
    let mut accounts = vec![accounts[0].clone(), authority(), card.clone(), voucher.clone()];
    assert_eq!(
        Processor::process_instruction(&program(), &mut accounts, NFTPacksInstruction::Activate, &environment),
        Ok(HostAction::Nothing)
    );
    let pack_set = accounts[0].clone();
    let mut accounts =
        vec![pack_set.clone(), voucher.clone(), proving_storage(), holder(), token_account(13, 14, 1)];
    let action = Processor::process_instruction(
        &program(),
        &mut accounts,
        NFTPacksInstruction::ProveOwnership,
        &environment,
    )
    .unwrap();
    match action {
        HostAction::Proof(receipt) => assert!(receipt.complete),
        _ => panic!("a proof hands back a receipt"),
    }
    let mut accounts = vec![
        pack_set.clone(),
        accounts[2].clone(),
        holder(),
        minting_authority(),
        voucher,
        card,
    ];
    assert_eq!(
        Processor::process_instruction(&program(), &mut accounts, NFTPacksInstruction::ClaimPack, &environment),
        Ok(HostAction::Mint(MintRequest { card_index: 1, master: key(13), holder: key(14) }))
    );
    let mut accounts = vec![pack_set, authority()];
    assert_eq!(
        Processor::process_instruction(&program(), &mut accounts, NFTPacksInstruction::Deactivate, &environment),
        Ok(HostAction::Nothing)
    );
    assert_eq!(
        Processor::process_instruction(&program(), &mut accounts, NFTPacksInstruction::Deactivate, &environment),
        Err(PackError::PackAlreadyDeactivated)
    );
    assert!(!NFTPacksInstruction::TransferAuthority.is_supported());
    assert!(!NFTPacksInstruction::DeletePack.is_supported());
    assert!(!NFTPacksInstruction::DeletePackCard.is_supported());
    assert!(!NFTPacksInstruction::DeletePackVoucher.is_supported());
    assert!(!NFTPacksInstruction::EditPackCard.is_supported());
    assert!(!NFTPacksInstruction::EditPackVoucher.is_supported());
}

fn address_at(fill: u8, bump: u8) -> Option<DerivedAddress> {
    derived_address(vec![vec![1u8, 2], vec![3u8]], Some((key(fill), bump)))
}

#[test]
fn derived_address_appends_the_bump() {
    let address = address_at(20, 254).unwrap();
    assert_eq!(address.key, key(20));
    assert_eq!(address.signer_seeds, vec![vec![1u8, 2], vec![3u8], vec![254u8]]);
    assert!(derived_address(vec![vec![1u8]], None).is_none());
}

#[test]
fn card_is_registered_at_the_given_address() {
    let mut accounts = vec![initialised_pack_set(), empty_at(key(20)), authority(), master()];
    let allocation =
        add_card_at(&program(), &mut accounts, card_args(1, 10), RENT, address_at(20, 254)).unwrap();
    assert_eq!(allocation.signers_seeds, vec![vec![vec![1u8, 2], vec![3u8], vec![254u8]]]);
    assert_eq!(allocation.account_keys, vec![key(11), key(20)]);
    assert_eq!(PackCard::unpack(&accounts[1].data).unwrap().index, 1);
    assert_eq!(accounts[1].owner, program());
    let mut accounts = vec![initialised_pack_set(), empty_at(key(20)), authority(), master()];
    let before = accounts.clone();
    assert_eq!(
        add_card_at(&program(), &mut accounts, card_args(1, 10), RENT, address_at(21, 254)),
        Err(PackError::InvalidArgument)
    );
    assert_eq!(
        add_card_at(&program(), &mut accounts, card_args(1, 10), RENT, None),
        Err(PackError::InvalidArgument)
    );
    assert_eq!(
        add_card_at(&program(), &mut accounts, card_args(2, 10), RENT, address_at(20, 254)),
        Err(PackError::InvalidArgument)
    );
    assert_eq!(accounts, before);
}

#[test]
fn voucher_is_registered_at_the_given_address() {
    let pack_set = initialised_pack_set();
    assert_eq!(voucher_index_to_add(&pack_set.data), 1);
    assert_eq!(voucher_index_to_add(&[0u8; 111]), 0);
    let mut full = PackSet::unpack(&pack_set.data).unwrap();
    full.pack_vouchers = u32::MAX;
    assert_eq!(voucher_index_to_add(&full.pack()), 0);
    full.pack_vouchers = 6;
    assert_eq!(voucher_index_to_add(&full.pack()), 7);
    let mut accounts = vec![pack_set, empty_at(key(20)), authority(), master()];
    let allocation =
        add_voucher_at(&program(), &mut accounts, voucher_args(4), RENT, address_at(20, 9)).unwrap();
    assert_eq!(allocation.signers_seeds, vec![vec![vec![1u8, 2], vec![3u8], vec![9u8]]]);
    let voucher = PackVoucher::unpack(&accounts[1].data).unwrap();
    assert_eq!(voucher.index, 1);
    assert_eq!(voucher.number_to_open, 4);
    let before = accounts.clone();
    accounts[1] = empty_at(key(22));
    let retry = accounts.clone();
    assert_eq!(
        add_voucher_at(&program(), &mut accounts, voucher_args(4), RENT, address_at(20, 9)),
        Err(PackError::InvalidArgument)
    );
    assert_eq!(
        add_voucher_at(&program(), &mut accounts, voucher_args(4), RENT, None),
        Err(PackError::InvalidArgument)
    );
    assert_eq!(accounts, retry);
    assert_eq!(PackSet::unpack(&before[0].data).unwrap().pack_vouchers, 1);
}

#[test]
fn proof_is_recorded_with_the_given_seed() {
    let campaign = live_campaign(2);
    let holding = Some(TokenHolding { mint: key(13), owner: key(14), amount: 1 });
    let mut accounts = vec![
        campaign.pack_set.clone(),
        campaign.vouchers[0].clone(),
        empty_at(key(20)),
        holder(),
        token_account(13, 14, 1),
    ];
    let receipt =
        prove_ownership_with(&program(), &mut accounts, holding, address_at(20, 7), 12345, RENT)
            .unwrap();
    assert!(!receipt.complete);
    let allocation = receipt.allocation.unwrap();
    assert_eq!(allocation.signers_seeds, vec![vec![vec![1u8, 2], vec![3u8], vec![7u8]]]);
    assert_eq!(allocation.account_keys, vec![key(14), key(20)]);
    let mut data = vec![0u8, 0, 0, 0];
    data.extend_from_slice(&RENT.to_le_bytes());
    data.extend_from_slice(&114u64.to_le_bytes());
    data.extend_from_slice(&[42u8; 32]);
    assert_eq!(allocation.instruction.data, data);
    let process = ProvingProcess::unpack(&accounts[2].data).unwrap();
    assert_eq!(process.seed, 12345);
    assert_eq!(process.proved_vouchers, 1);
    let receipt =
        prove_ownership_with(&program(), &mut accounts, holding, address_at(20, 7), 999, RENT)
            .unwrap();
    assert!(receipt.complete);
    assert!(receipt.allocation.is_none());
    let process = ProvingProcess::unpack(&accounts[2].data).unwrap();
    assert_eq!(process.seed, 12345);
    assert_eq!(process.proved_vouchers, 2);
    let before = accounts.clone();
    let run = |accounts: &mut Vec<Account>, holding, address| {
        prove_ownership_with(&program(), accounts, holding, address, 1, RENT).unwrap_err()
    };
    assert_eq!(run(&mut accounts, holding, address_at(20, 7)), PackError::WrongProvingState);
    assert_eq!(run(&mut accounts, None, address_at(20, 7)), PackError::InvalidAccountData);
    assert_eq!(run(&mut accounts, holding, None), PackError::InvalidArgument);
    assert_eq!(run(&mut accounts, holding, address_at(21, 7)), PackError::InvalidArgument);
    let poor = Some(TokenHolding { mint: key(13), owner: key(14), amount: 0 });
    assert_eq!(run(&mut accounts, poor, address_at(20, 7)), PackError::InvalidArgument);
    assert_eq!(accounts, before);
}
