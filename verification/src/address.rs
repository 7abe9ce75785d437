//! Addresses of the records of a pack set.
//!
//! Each card, voucher and proving process is stored at an address derived
//! from the program's identity and a list of seeds, so that every record can
//! be found from its pack set without a central index.

use vstd::prelude::*;
use vstd::bytes::{spec_u32_to_le_bytes, u32_to_le_bytes};
use solana_program::pubkey::Pubkey;
use crate::account::Key;

verus! {

/// The program-derived address for the given seeds and program, with its bump
/// seed, as `Pubkey::try_find_program_address` computes it: `None` where no
/// bump seed gives a valid address.
pub uninterp spec fn program_address(seeds: Seq<Seq<u8>>, program_id: Seq<u8>) -> Option<
    (Seq<u8>, u8),
>;

/// A list of seeds as sequences of bytes.
pub open spec fn seeds_view(seeds: Seq<Vec<u8>>) -> Seq<Seq<u8>> {
    seeds.map_values(|s: Vec<u8>| s@)
}

/// Calls `solana_program::pubkey::Pubkey::try_find_program_address`. The
/// contract claims only that the call is a function of the seeds and the
/// program's identity, named `program_address`; it does not panic.
#[verifier::external_body]
fn try_find_program_address(seeds: &Vec<Vec<u8>>, program_id: &Key) -> (r: Option<(Key, u8)>)
    ensures
        r matches Some(found) ==> program_address(seeds_view(seeds@), program_id@) == Some(
            (found.0@, found.1),
        ),
        r is None ==> program_address(seeds_view(seeds@), program_id@) is None,
{
    let parts: Vec<&[u8]> = seeds.iter().map(|s| s.as_slice()).collect();
    let program = Pubkey::new_from_array(program_id.bytes);
    Pubkey::try_find_program_address(&parts, &program).map(|(k, b)| (Key { bytes: k.to_bytes() }, b))
}

/// The bytes of the word "card".
pub open spec fn card_prefix() -> Seq<u8> {
    seq![99u8, 97u8, 114u8, 100u8]
}

/// The bytes of the word "voucher".
pub open spec fn voucher_prefix() -> Seq<u8> {
    seq![118u8, 111u8, 117u8, 99u8, 104u8, 101u8, 114u8]
}

/// The bytes of the word "proving".
pub open spec fn proving_prefix() -> Seq<u8> {
    seq![112u8, 114u8, 111u8, 118u8, 105u8, 110u8, 103u8]
}

/// The seeds of the card with the given index: the word "card", the pack
/// set's address, the index in little-endian order.
pub open spec fn card_seeds(pack_set: Seq<u8>, index: u32) -> Seq<Seq<u8>> {
    seq![card_prefix(), pack_set, spec_u32_to_le_bytes(index)]
}

/// The seeds of the voucher with the given index: the word "voucher", the
/// pack set's address, the index in little-endian order.
pub open spec fn voucher_seeds(pack_set: Seq<u8>, index: u32) -> Seq<Seq<u8>> {
    seq![voucher_prefix(), pack_set, spec_u32_to_le_bytes(index)]
}

/// The seeds of a holder's proving process: the word "proving", the pack
/// set's address, the holder's address.
pub open spec fn proving_seeds(pack_set: Seq<u8>, holder: Seq<u8>) -> Seq<Seq<u8>> {
    seq![proving_prefix(), pack_set, holder]
}

/// A derived address with the seeds that sign for it: the seeds it was
/// derived from, followed by the bump seed.
pub struct DerivedAddress {
    /// The address.
    pub key: Key,
    /// The seeds, the bump seed last.
    pub signer_seeds: Vec<Vec<u8>>,
}

/// The key of a derived address, if there is one.
pub open spec fn address_key(address: Option<DerivedAddress>) -> Option<Seq<u8>> {
    match address {
        Some(a) => Some(a.key@),
        None => None,
    }
}

/// The key of the address that `seeds` give under `program_id`, if they give
/// one.
pub open spec fn program_address_key(seeds: Seq<Seq<u8>>, program_id: Seq<u8>) -> Option<
    Seq<u8>,
> {
    match program_address(seeds, program_id) {
        Some(found) => Some(found.0),
        None => None,
    }
}

impl DerivedAddress {
    /// Whether this is the address that `seeds` give under `program_id`.
    pub open spec fn derives_from(self, seeds: Seq<Seq<u8>>, program_id: Seq<u8>) -> bool {
        &&& program_address(seeds, program_id) matches Some(found)
        &&& self.key@ == found.0
        &&& seeds_view(self.signer_seeds@) == seeds.push(seq![found.1])
    }
}

/// The derived address for a key and a bump seed that were found for
/// `seeds`: the key, and the seeds with the bump seed appended.
pub fn derived_address(seeds: Vec<Vec<u8>>, found: Option<(Key, u8)>) -> (r: Option<
    DerivedAddress,
>)
    ensures
        found is None ==> r is None,
        found matches Some(f) ==> r matches Some(a) && a.key == f.0 && seeds_view(
            a.signer_seeds@,
        ) == seeds_view(seeds@).push(seq![f.1]),
{
    match found {
        Some((key, bump)) => {
            let mut signer_seeds = seeds;
            let mut last: Vec<u8> = Vec::new();
            last.push(bump);
            signer_seeds.push(last);
            assert(seeds_view(signer_seeds@) =~= seeds_view(seeds@).push(seq![bump]));
            Some(DerivedAddress { key, signer_seeds })
        },
        None => None,
    }
}

/// Derives the address that `seeds` give under `program_id`.
pub fn find_program_address(seeds: Vec<Vec<u8>>, program_id: &Key) -> (r: Option<DerivedAddress>)
    ensures
        r matches Some(a) ==> a.derives_from(seeds_view(seeds@), program_id@),
        r is None ==> program_address(seeds_view(seeds@), program_id@) is None,
{
    let found = try_find_program_address(&seeds, program_id);
    derived_address(seeds, found)
}

/// The seeds made of a prefix, a pack set's address and a third part.
fn three_seeds(prefix: Vec<u8>, pack_set: &Key, third: Vec<u8>) -> (seeds: Vec<Vec<u8>>)
    ensures
        seeds_view(seeds@) == seq![prefix@, pack_set@, third@],
{
    let mut seeds: Vec<Vec<u8>> = Vec::new();
    seeds.push(prefix);
    seeds.push(pack_set.to_vec());
    seeds.push(third);
    assert(seeds_view(seeds@) =~= seq![prefix@, pack_set@, third@]);
    seeds
}

/// The address of the card of `pack_set` with the given index.
pub fn find_pack_card_program_address(program_id: &Key, pack_set: &Key, index: u32) -> (r: Option<
    DerivedAddress,
>)
    ensures
        r matches Some(a) ==> a.derives_from(card_seeds(pack_set@, index), program_id@),
        r is None ==> program_address(card_seeds(pack_set@, index), program_id@) is None,
{
    let mut prefix: Vec<u8> = Vec::new();
    prefix.push(99u8);
    prefix.push(97u8);
    prefix.push(114u8);
    prefix.push(100u8);
    assert(prefix@ =~= card_prefix());
    find_program_address(three_seeds(prefix, pack_set, u32_to_le_bytes(index)), program_id)
}

/// The address of the voucher of `pack_set` with the given index.
pub fn find_pack_voucher_program_address(program_id: &Key, pack_set: &Key, index: u32) -> (r:
    Option<DerivedAddress>)
    ensures
        r matches Some(a) ==> a.derives_from(voucher_seeds(pack_set@, index), program_id@),
        r is None ==> program_address(voucher_seeds(pack_set@, index), program_id@) is None,
{
    let mut prefix: Vec<u8> = Vec::new();
    prefix.push(118u8);
    prefix.push(111u8);
    prefix.push(117u8);
    prefix.push(99u8);
    prefix.push(104u8);
    prefix.push(101u8);
    prefix.push(114u8);
    assert(prefix@ =~= voucher_prefix());
    find_program_address(three_seeds(prefix, pack_set, u32_to_le_bytes(index)), program_id)
}

/// The address of the proving process of `holder` against `pack_set`.
pub fn find_proving_process_program_address(program_id: &Key, pack_set: &Key, holder: &Key) -> (r:
    Option<DerivedAddress>)
    ensures
        r matches Some(a) ==> a.derives_from(proving_seeds(pack_set@, holder@), program_id@),
        r is None ==> program_address(proving_seeds(pack_set@, holder@), program_id@) is None,
{
    let mut prefix: Vec<u8> = Vec::new();
    prefix.push(112u8);
    prefix.push(114u8);
    prefix.push(111u8);
    prefix.push(118u8);
    prefix.push(105u8);
    prefix.push(110u8);
    prefix.push(103u8);
    assert(prefix@ =~= proving_prefix());
    find_program_address(three_seeds(prefix, pack_set, holder.to_vec()), program_id)
}

} // verus!
