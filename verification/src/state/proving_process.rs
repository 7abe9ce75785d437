//! The proving process record: one holder's claim in progress.

use vstd::prelude::*;
use vstd::bytes::{spec_u32_from_le_bytes, spec_u32_to_le_bytes, lemma_auto_spec_u32_to_from_le_bytes};
use vstd::bytes::{spec_u64_from_le_bytes, spec_u64_to_le_bytes, lemma_auto_spec_u64_to_from_le_bytes};
use crate::account::Key;
use crate::codec::{lemma_option_u32_roundtrip, option_u32_bytes, parse_option_u32};
use crate::codec::{put_key, put_option_u32, put_u32, put_u64, read_key, read_option_u32, read_u32, read_u64};
use crate::error::PackError;
use crate::math::SafeMath;
use crate::state::AccountType;

verus! {

/// A claim in progress as it is stored.
#[derive(Clone, Copy, Debug, PartialEq, Eq)]
pub struct ProvingProcess {
    /// The record's kind. `ProvingProcess` in every stored claim.
    pub account_type: AccountType,
    /// The address of the pack set the claim is made against.
    pub pack_set: Key,
    /// The holder who makes the claim.
    pub holder: Key,
    /// The address of the voucher record whose vouchers are being proven.
    pub voucher: Key,
    /// How many vouchers have been presented and validated.
    pub proved_vouchers: u32,
    /// The selection seed, recorded with the first proof and never changed.
    pub seed: u64,
    /// The index of the selected card, once the claim is resolved.
    pub selected_card: Option<u32>,
}

/// A claim in progress as a mathematical value.
pub struct ProvingProcessView {
    pub account_type: AccountType,
    pub pack_set: Seq<u8>,
    pub holder: Seq<u8>,
    pub voucher: Seq<u8>,
    pub proved_vouchers: u32,
    pub seed: u64,
    pub selected_card: Option<u32>,
}

impl View for ProvingProcess {
    type V = ProvingProcessView;

    open spec fn view(&self) -> ProvingProcessView {
        ProvingProcessView {
            account_type: self.account_type,
            pack_set: self.pack_set@,
            holder: self.holder@,
            voucher: self.voucher@,
            proved_vouchers: self.proved_vouchers,
            seed: self.seed,
            selected_card: self.selected_card,
        }
    }
}

/// The number of bytes of a stored claim.
pub const PROVING_PROCESS_LEN: usize = 114;

impl ProvingProcessView {
    /// The three key fields have their fixed length.
    pub open spec fn wf(self) -> bool {
        &&& self.pack_set.len() == 32
        &&& self.holder.len() == 32
        &&& self.voucher.len() == 32
    }

    /// The stored bytes: kind tag, pack set, holder, voucher, proven count,
    /// seed, and last the optional selected card.
    pub open spec fn encode(self) -> Seq<u8> {
        seq![self.account_type.spec_tag()] + self.pack_set + self.holder + self.voucher
            + spec_u32_to_le_bytes(self.proved_vouchers) + spec_u64_to_le_bytes(self.seed)
            + option_u32_bytes(self.selected_card)
    }

    /// The claim that bytes hold, if they hold one.
    pub open spec fn decode(bytes: Seq<u8>) -> Result<ProvingProcessView, PackError> {
        if bytes.len() != PROVING_PROCESS_LEN {
            Err(PackError::InvalidAccountData)
        } else if bytes[0] != AccountType::ProvingProcess.spec_tag() {
            Err(PackError::InvalidAccountData)
        } else if parse_option_u32(bytes.subrange(109, 114)) is Err {
            Err(PackError::InvalidAccountData)
        } else {
            Ok(
                ProvingProcessView {
                    account_type: AccountType::ProvingProcess,
                    pack_set: bytes.subrange(1, 33),
                    holder: bytes.subrange(33, 65),
                    voucher: bytes.subrange(65, 97),
                    proved_vouchers: spec_u32_from_le_bytes(bytes.subrange(97, 101)),
                    seed: spec_u64_from_le_bytes(bytes.subrange(101, 109)),
                    selected_card: parse_option_u32(bytes.subrange(109, 114))->Ok_0,
                },
            )
        }
    }

    /// Whether the value is a claim, not blank storage.
    pub open spec fn is_initialized(self) -> bool {
        self.account_type == AccountType::ProvingProcess
    }

    /// Whether the holder has proven as many vouchers as opening a pack
    /// takes.
    pub open spec fn is_complete(self, number_to_open: u32) -> bool {
        self.proved_vouchers >= number_to_open
    }

    /// The claim after one more voucher has been proven. A claim that is
    /// already complete takes no further proof: `WrongProvingState`.
    pub open spec fn proven(self, number_to_open: u32) -> Result<ProvingProcessView, PackError> {
        if self.is_complete(number_to_open) {
            Err(PackError::WrongProvingState)
        } else {
            Ok(ProvingProcessView { proved_vouchers: (self.proved_vouchers + 1) as u32, ..self })
        }
    }
}

/// Decoding the bytes of a claim gives the claim back, and those bytes have
/// the record's fixed length.
pub proof fn lemma_proving_process_roundtrip(v: ProvingProcessView)
    requires
        v.wf(),
        v.is_initialized(),
    ensures
        v.encode().len() == PROVING_PROCESS_LEN,
        ProvingProcessView::decode(v.encode()) == Ok::<ProvingProcessView, PackError>(v),
{
    lemma_auto_spec_u32_to_from_le_bytes();
    lemma_auto_spec_u64_to_from_le_bytes();
    lemma_option_u32_roundtrip(v.selected_card);
    let b = v.encode();
    assert(b.len() == 114);
    assert(b[0] == 4u8);
    assert(b.subrange(1, 33) =~= v.pack_set);
    assert(b.subrange(33, 65) =~= v.holder);
    assert(b.subrange(65, 97) =~= v.voucher);
    assert(b.subrange(97, 101) =~= spec_u32_to_le_bytes(v.proved_vouchers));
    assert(b.subrange(101, 109) =~= spec_u64_to_le_bytes(v.seed));
    assert(b.subrange(109, 114) =~= option_u32_bytes(v.selected_card));
}

impl ProvingProcess {
    /// The number of bytes of a stored claim.
    pub const LEN: usize = 114;

    /// Whether the value is a claim, not blank storage.
    pub fn is_initialized(&self) -> (yes: bool)
        ensures
            yes == self@.is_initialized(),
    {
        match self.account_type {
            AccountType::ProvingProcess => true,
            _ => false,
        }
    }

    /// A claim that has just been opened: nothing proven, the seed fixed.
    pub fn start(pack_set: Key, holder: Key, voucher: Key, seed: u64) -> (process: ProvingProcess)
        ensures
            process@ == (ProvingProcessView {
                account_type: AccountType::ProvingProcess,
                pack_set: pack_set@,
                holder: holder@,
                voucher: voucher@,
                proved_vouchers: 0,
                seed,
                selected_card: None,
            }),
    {
        ProvingProcess {
            account_type: AccountType::ProvingProcess,
            pack_set,
            holder,
            voucher,
            proved_vouchers: 0,
            seed,
            selected_card: None,
        }
    }

    /// Whether the holder has proven as many vouchers as opening a pack
    /// takes.
    pub fn is_complete(&self, number_to_open: u32) -> (yes: bool)
        ensures
            yes == self@.is_complete(number_to_open),
    {
        self.proved_vouchers >= number_to_open
    }

    /// Counts one more proven voucher, or fails and leaves the claim as it
    /// was. The seed is not touched.
    pub fn prove(&mut self, number_to_open: u32) -> (r: Result<(), PackError>)
        ensures
            match r {
                Ok(_) => old(self)@.proven(number_to_open) == Ok::<ProvingProcessView, PackError>(
                    final(self)@,
                ),
                Err(e) => old(self)@.proven(number_to_open) == Err::<
                    ProvingProcessView,
                    PackError,
                >(e) && *final(self) == *old(self),
            },
    {
        if self.is_complete(number_to_open) {
            return Err(PackError::WrongProvingState);
        }
        self.proved_vouchers = self.proved_vouchers.error_increment()?;
        Ok(())
    }

    /// The record's bytes.
    pub fn pack(&self) -> (out: Vec<u8>)
        ensures
            out@ == self@.encode(),
    {
        let mut out: Vec<u8> = Vec::new();
        out.push(self.account_type.tag());
        put_key(&mut out, &self.pack_set);
        put_key(&mut out, &self.holder);
        put_key(&mut out, &self.voucher);
        put_u32(&mut out, self.proved_vouchers);
        put_u64(&mut out, self.seed);
        put_option_u32(&mut out, self.selected_card);
        assert(out@ =~= self@.encode());
        out
    }

    /// The claim stored in `input`, or `InvalidAccountData` where the bytes
    /// hold none.
    pub fn unpack(input: &[u8]) -> (r: Result<ProvingProcess, PackError>)
        ensures
            match r {
                Ok(p) => ProvingProcessView::decode(input@) == Ok::<ProvingProcessView, PackError>(
                    p@,
                ),
                Err(e) => ProvingProcessView::decode(input@) == Err::<ProvingProcessView, PackError>(
                    e,
                ),
            },
    {
        if input.len() != 114 {
            return Err(PackError::InvalidAccountData);
        }
        if input[0] != AccountType::ProvingProcess.tag() {
            return Err(PackError::InvalidAccountData);
        }
        let selected_card = match read_option_u32(input, 109) {
            Ok(m) => m,
            Err(_) => {
                return Err(PackError::InvalidAccountData);
            },
        };
        Ok(
            ProvingProcess {
                account_type: AccountType::ProvingProcess,
                pack_set: read_key(input, 1),
                holder: read_key(input, 33),
                voucher: read_key(input, 65),
                proved_vouchers: read_u32(input, 97),
                seed: read_u64(input, 101),
                selected_card,
            },
        )
    }
}

} // verus!
