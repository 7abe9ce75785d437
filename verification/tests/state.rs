use metaplex_nft_packs::account::Key;
use metaplex_nft_packs::error::PackError;
use metaplex_nft_packs::instruction::InitPackSetArgs;
use metaplex_nft_packs::state::pack_card::PackCard;
use metaplex_nft_packs::state::pack_set::PackSet;
use metaplex_nft_packs::state::pack_voucher::PackVoucher;
use metaplex_nft_packs::state::proving_process::ProvingProcess;
use metaplex_nft_packs::state::{AccountType, ActionOnProve, DistributionType, PackSetState};

fn key(fill: u8) -> Key {
    Key::new([fill; 32])
}

fn sample_set() -> PackSet {
    let mut set = PackSet::init(
        key(1),
        key(2),
        InitPackSetArgs { name: [7; 32], total_packs: 5, mutable: true },
    );
    set.pack_cards = 0x01020304;
    set.pack_vouchers = 9;
    set.pack_state = PackSetState::Activated;
    set
}

#[test]
fn pack_set_layout_is_fixed() {
    let bytes = sample_set().pack();
    assert_eq!(bytes.len(), PackSet::LEN);
    assert_eq!(bytes.len(), 111);
    assert_eq!(bytes[0], 1);
    assert_eq!(&bytes[1..33], &[7u8; 32]);
    assert_eq!(&bytes[33..65], &[1u8; 32]);
    assert_eq!(&bytes[65..97], &[2u8; 32]);
    assert_eq!(&bytes[97..101], &[5, 0, 0, 0]);
    assert_eq!(&bytes[101..105], &[4, 3, 2, 1]);
    assert_eq!(&bytes[105..109], &[9, 0, 0, 0]);
    assert_eq!(bytes[109], 1);
    assert_eq!(bytes[110], 1);
}

#[test]
fn pack_set_round_trips() {
    let set = sample_set();
    assert_eq!(PackSet::unpack(&set.pack()), Ok(set));
    assert!(set.is_initialized());
}

#[test]
fn pack_set_rejects_malformed_bytes() {
    let good = sample_set().pack();
    assert_eq!(PackSet::unpack(&good[..110]), Err(PackError::InvalidAccountData));
    assert_eq!(PackSet::unpack(&[]), Err(PackError::InvalidAccountData));
    let mut longer = good.clone();
    longer.push(0);
    assert_eq!(PackSet::unpack(&longer), Err(PackError::InvalidAccountData));
    let mut blank = good.clone();
    blank[0] = 0;
    assert_eq!(PackSet::unpack(&blank), Err(PackError::InvalidAccountData));
    let mut other_kind = good.clone();
    other_kind[0] = 2;
    assert_eq!(PackSet::unpack(&other_kind), Err(PackError::InvalidAccountData));
    let mut bad_flag = good.clone();
    bad_flag[109] = 2;
    assert_eq!(PackSet::unpack(&bad_flag), Err(PackError::InvalidAccountData));
    let mut bad_state = good.clone();
    bad_state[110] = 3;
    assert_eq!(PackSet::unpack(&bad_state), Err(PackError::InvalidAccountData));
    assert_eq!(PackSet::unpack(&[0u8; 111]), Err(PackError::InvalidAccountData));
}

#[test]
fn pack_card_layout_and_round_trip() {
    let mut card = PackCard::new(
        key(3),
        key(4),
        2,
        Some(5),
        DistributionType::ProbabilityBased,
        1_000_000,
    );
    card.minted = 3;
    let bytes = card.pack();
    assert_eq!(bytes.len(), PackCard::LEN);
    assert_eq!(bytes.len(), 87);
    assert_eq!(bytes[0], 2);
    assert_eq!(&bytes[1..33], &[3u8; 32]);
    assert_eq!(&bytes[33..65], &[4u8; 32]);
    assert_eq!(&bytes[65..69], &[2, 0, 0, 0]);
    assert_eq!(bytes[69], 0);
    assert_eq!(&bytes[70..78], &[0x40, 0x42, 0x0f, 0, 0, 0, 0, 0]);
    assert_eq!(&bytes[78..82], &[3, 0, 0, 0]);
    assert_eq!(&bytes[82..87], &[1, 5, 0, 0, 0]);
    assert_eq!(PackCard::unpack(&bytes), Ok(card));
    assert_eq!(card.account_type, AccountType::PackCard);
}

#[test]
fn pack_card_without_limit_zero_fills() {
    let card = PackCard::new(key(3), key(4), 1, None, DistributionType::ProbabilityBased, 10);
    let bytes = card.pack();
    assert_eq!(&bytes[82..87], &[0, 0, 0, 0, 0]);
    assert_eq!(PackCard::unpack(&bytes), Ok(card));
    assert!(!card.is_exhausted());
    let mut ignored = bytes.clone();
    ignored[84] = 9;
    assert_eq!(PackCard::unpack(&ignored), Ok(card));
}

#[test]
fn pack_card_rejects_malformed_bytes() {
    let card = PackCard::new(key(3), key(4), 1, Some(1), DistributionType::ProbabilityBased, 10);
    let good = card.pack();
    assert_eq!(PackCard::unpack(&good[..86]), Err(PackError::InvalidAccountData));
    let mut wrong_tag = good.clone();
    wrong_tag[0] = 1;
    assert_eq!(PackCard::unpack(&wrong_tag), Err(PackError::InvalidAccountData));
    let mut wrong_kind = good.clone();
    wrong_kind[69] = 1;
    assert_eq!(PackCard::unpack(&wrong_kind), Err(PackError::InvalidAccountData));
    let mut wrong_option = good.clone();
    wrong_option[82] = 2;
    assert_eq!(PackCard::unpack(&wrong_option), Err(PackError::InvalidAccountData));
}

#[test]
fn pack_card_exhaustion_and_minting() {
    let mut card = PackCard::new(key(3), key(4), 1, Some(2), DistributionType::ProbabilityBased, 10);
    assert_eq!(card.minted, 0);
    assert_eq!(card.mint_one(), Ok(()));
    assert_eq!(card.mint_one(), Ok(()));
    assert_eq!(card.minted, 2);
    assert!(card.is_exhausted());
    assert_eq!(card.mint_one(), Err(PackError::NoCardsLeft));
    assert_eq!(card.minted, 2);
    let mut unlimited = PackCard::new(key(3), key(4), 1, None, DistributionType::ProbabilityBased, 1);
    unlimited.minted = u32::MAX;
    assert_eq!(unlimited.mint_one(), Err(PackError::Overflow));
    assert_eq!(unlimited.minted, u32::MAX);
}

#[test]
fn pack_voucher_layout_and_round_trip() {
    let voucher = PackVoucher::new(key(5), key(6), 1, Some(5), 4, ActionOnProve::Redeem);
    let bytes = voucher.pack();
    assert_eq!(bytes.len(), PackVoucher::LEN);
    assert_eq!(bytes.len(), 79);
    assert_eq!(bytes[0], 3);
    assert_eq!(&bytes[1..33], &[5u8; 32]);
    assert_eq!(&bytes[33..65], &[6u8; 32]);
    assert_eq!(&bytes[65..69], &[1, 0, 0, 0]);
    assert_eq!(&bytes[69..73], &[4, 0, 0, 0]);
    assert_eq!(bytes[73], 1);
    assert_eq!(&bytes[74..79], &[1, 5, 0, 0, 0]);
    assert_eq!(PackVoucher::unpack(&bytes), Ok(voucher));
    assert!(voucher.is_initialized());
    let burn = PackVoucher::new(key(5), key(6), 1, None, 4, ActionOnProve::Burn);
    assert_eq!(burn.pack()[73], 0);
    assert_eq!(PackVoucher::unpack(&burn.pack()), Ok(burn));
}

#[test]
fn pack_voucher_rejects_malformed_bytes() {
    let good = PackVoucher::new(key(5), key(6), 1, Some(5), 4, ActionOnProve::Burn).pack();
    assert_eq!(PackVoucher::unpack(&good[1..]), Err(PackError::InvalidAccountData));
    let mut wrong_tag = good.clone();
    wrong_tag[0] = 2;
    assert_eq!(PackVoucher::unpack(&wrong_tag), Err(PackError::InvalidAccountData));
    let mut wrong_action = good.clone();
    wrong_action[73] = 2;
    assert_eq!(PackVoucher::unpack(&wrong_action), Err(PackError::InvalidAccountData));
    let mut wrong_option = good.clone();
    wrong_option[74] = 7;
    assert_eq!(PackVoucher::unpack(&wrong_option), Err(PackError::InvalidAccountData));
}

#[test]
fn proving_process_layout_and_round_trip() {
    let mut process = ProvingProcess::start(key(7), key(8), key(9), 0x0102030405060708);
    process.proved_vouchers = 2;
    let bytes = process.pack();
    assert_eq!(bytes.len(), ProvingProcess::LEN);
    assert_eq!(bytes.len(), 114);
    assert_eq!(bytes[0], 4);
    assert_eq!(&bytes[1..33], &[7u8; 32]);
    assert_eq!(&bytes[33..65], &[8u8; 32]);
    assert_eq!(&bytes[65..97], &[9u8; 32]);
    assert_eq!(&bytes[97..101], &[2, 0, 0, 0]);
    assert_eq!(&bytes[101..109], &[8, 7, 6, 5, 4, 3, 2, 1]);
    assert_eq!(&bytes[109..114], &[0, 0, 0, 0, 0]);
    assert_eq!(ProvingProcess::unpack(&bytes), Ok(process));
    process.selected_card = Some(3);
    assert_eq!(&process.pack()[109..114], &[1, 3, 0, 0, 0]);
    assert_eq!(ProvingProcess::unpack(&process.pack()), Ok(process));
    assert!(process.is_initialized());
}

#[test]
fn proving_process_rejects_malformed_bytes() {
    let good = ProvingProcess::start(key(7), key(8), key(9), 1).pack();
    assert_eq!(ProvingProcess::unpack(&good[..113]), Err(PackError::InvalidAccountData));
    let mut wrong_tag = good.clone();
    wrong_tag[0] = 3;
    assert_eq!(ProvingProcess::unpack(&wrong_tag), Err(PackError::InvalidAccountData));
    let mut wrong_option = good.clone();
    wrong_option[109] = 2;
    assert_eq!(ProvingProcess::unpack(&wrong_option), Err(PackError::InvalidAccountData));
}

#[test]
fn proving_process_counts_proofs_until_complete() {
    let mut process = ProvingProcess::start(key(7), key(8), key(9), 77);
    assert!(!process.is_complete(2));
    assert_eq!(process.prove(2), Ok(()));
    assert_eq!(process.proved_vouchers, 1);
    assert_eq!(process.prove(2), Ok(()));
    assert!(process.is_complete(2));
    assert_eq!(process.prove(2), Err(PackError::WrongProvingState));
    assert_eq!(process.proved_vouchers, 2);
    assert_eq!(process.seed, 77);
}

#[test]
fn pack_set_registers_cards_in_sequence() {
    let mut set = PackSet::init(key(1), key(2), InitPackSetArgs {
        name: [7; 32],
        total_packs: 5,
        mutable: true,
    });
    assert_eq!(set.register_card(1), Ok(()));
    assert_eq!(set.register_card(2), Ok(()));
    assert_eq!(set.register_card(3), Ok(()));
    assert_eq!(set.pack_cards, 3);
    assert_eq!(set.register_card(3), Err(PackError::InvalidArgument));
    assert_eq!(set.register_card(5), Err(PackError::InvalidArgument));
    assert_eq!(set.register_card(0), Err(PackError::InvalidArgument));
    assert_eq!(set.pack_cards, 3);
    assert_eq!(set.register_voucher(), Ok(1));
    assert_eq!(set.register_voucher(), Ok(2));
    assert_eq!(set.pack_vouchers, 2);
}

#[test]
fn pack_set_registration_needs_open_set() {
    let args = InitPackSetArgs { name: [7; 32], total_packs: 5, mutable: false };
    let mut immutable = PackSet::init(key(1), key(2), args);
    assert_eq!(immutable.register_card(1), Err(PackError::ImmutablePackSet));
    assert_eq!(immutable.register_voucher(), Err(PackError::ImmutablePackSet));
    assert_eq!(immutable.assert_able_to_edit(), Err(PackError::ImmutablePackSet));
    let mut active = PackSet::init(key(1), key(2), InitPackSetArgs { mutable: true, ..args });
    active.pack_state = PackSetState::Activated;
    assert_eq!(active.register_card(1), Err(PackError::WrongPackState));
    assert_eq!(active.register_voucher(), Err(PackError::WrongPackState));
    let mut full = PackSet::init(key(1), key(2), InitPackSetArgs { mutable: true, ..args });
    full.pack_cards = u32::MAX;
    full.pack_vouchers = u32::MAX;
    assert_eq!(full.register_card(1), Err(PackError::Overflow));
    assert_eq!(full.register_voucher(), Err(PackError::Overflow));
}

#[test]
fn pack_set_activation_needs_gapless_indices() {
    let args = InitPackSetArgs { name: [7; 32], total_packs: 5, mutable: true };
    let card = |index: u32| PackCard::new(key(3), key(4), index, None, DistributionType::ProbabilityBased, 1);
    let voucher = |index: u32| PackVoucher::new(key(3), key(4), index, None, 1, ActionOnProve::Burn);
    let mut set = PackSet::init(key(1), key(2), args);
    set.pack_cards = 3;
    set.pack_vouchers = 1;
    let mut gap = set;
    assert_eq!(gap.activate(&vec![card(1), card(3)], &vec![voucher(1)]), Err(PackError::WrongPackState));
    assert_eq!(gap.activate(&vec![card(1), card(3), card(3)], &vec![voucher(1)]), Err(PackError::WrongPackState));
    assert_eq!(gap.activate(&vec![card(2), card(1), card(3)], &vec![voucher(1)]), Err(PackError::WrongPackState));
    assert_eq!(gap.activate(&vec![card(1), card(2), card(3)], &vec![]), Err(PackError::WrongPackState));
    assert_eq!(gap.activate(&vec![card(1), card(2), card(3)], &vec![voucher(2)]), Err(PackError::WrongPackState));
    assert_eq!(gap, set);
    let mut whole = set;
    assert_eq!(whole.activate(&vec![card(1), card(2), card(3)], &vec![voucher(1)]), Ok(()));
    assert_eq!(whole.pack_state, PackSetState::Activated);
    assert_eq!(whole.activate(&vec![card(1), card(2), card(3)], &vec![voucher(1)]), Err(PackError::WrongPackState));
    let mut empty = PackSet::init(key(1), key(2), args);
    assert_eq!(empty.activate(&vec![], &vec![]), Ok(()));
}

#[test]
fn enumeration_bytes() {
    assert_eq!(AccountType::Uninitialized.tag(), 0);
    assert_eq!(AccountType::PackSet.tag(), 1);
    assert_eq!(AccountType::PackCard.tag(), 2);
    assert_eq!(AccountType::PackVoucher.tag(), 3);
    assert_eq!(AccountType::ProvingProcess.tag(), 4);
    assert_eq!(PackSetState::from_byte(0), Some(PackSetState::NotActivated));
    assert_eq!(PackSetState::from_byte(1), Some(PackSetState::Activated));
    assert_eq!(PackSetState::from_byte(2), Some(PackSetState::Deactivated));
    assert_eq!(PackSetState::from_byte(3), None);
    assert_eq!(PackSetState::Deactivated.byte(), 2);
    assert_eq!(DistributionType::from_byte(0), Some(DistributionType::ProbabilityBased));
    assert_eq!(DistributionType::from_byte(1), None);
    assert_eq!(ActionOnProve::from_byte(1), Some(ActionOnProve::Redeem));
    assert_eq!(ActionOnProve::from_byte(2), None);
}
