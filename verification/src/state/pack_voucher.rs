//! The pack voucher record: a redeemable token definition of a pack set.

use vstd::prelude::*;
use vstd::bytes::{spec_u32_from_le_bytes, spec_u32_to_le_bytes, lemma_auto_spec_u32_to_from_le_bytes};
use crate::account::Key;
use crate::codec::{lemma_option_u32_roundtrip, option_u32_bytes, parse_option_u32};
use crate::codec::{put_key, put_option_u32, put_u32, read_key, read_option_u32, read_u32};
use crate::error::PackError;
use crate::state::{AccountType, ActionOnProve};

verus! {

/// A voucher as it is stored.
#[derive(Clone, Copy, Debug, PartialEq, Eq)]
pub struct PackVoucher {
    /// The record's kind. `PackVoucher` in every stored voucher.
    pub account_type: AccountType,
    /// The address of the pack set the voucher belongs to.
    pub pack_set: Key,
    /// The collectible template whose token units are the vouchers.
    pub master: Key,
    /// The voucher's 1-based position among the vouchers of its pack set.
    pub index: u32,
    /// The most vouchers that may be issued; no limit where absent.
    pub max_supply: Option<u32>,
    /// How many vouchers a holder must prove to open one pack.
    pub number_to_open: u32,
    /// What becomes of a voucher once it has been proven.
    pub action_on_prove: ActionOnProve,
}

/// A voucher as a mathematical value.
pub struct PackVoucherView {
    pub account_type: AccountType,
    pub pack_set: Seq<u8>,
    pub master: Seq<u8>,
    pub index: u32,
    pub max_supply: Option<u32>,
    pub number_to_open: u32,
    pub action_on_prove: ActionOnProve,
}

impl View for PackVoucher {
    type V = PackVoucherView;

    open spec fn view(&self) -> PackVoucherView {
        PackVoucherView {
            account_type: self.account_type,
            pack_set: self.pack_set@,
            master: self.master@,
            index: self.index,
            max_supply: self.max_supply,
            number_to_open: self.number_to_open,
            action_on_prove: self.action_on_prove,
        }
    }
}

/// The number of bytes of a stored voucher.
pub const PACK_VOUCHER_LEN: usize = 79;

impl PackVoucherView {
    /// The two key fields have their fixed length.
    pub open spec fn wf(self) -> bool {
        &&& self.pack_set.len() == 32
        &&& self.master.len() == 32
    }

    /// The stored bytes: kind tag, pack set, template, index, number to open,
    /// disposition, and last the optional maximum supply.
    pub open spec fn encode(self) -> Seq<u8> {
        seq![self.account_type.spec_tag()] + self.pack_set + self.master
            + spec_u32_to_le_bytes(self.index) + spec_u32_to_le_bytes(self.number_to_open) + seq![self.action_on_prove.spec_byte()]
            + option_u32_bytes(self.max_supply)
    }

    /// The voucher that bytes hold, if they hold one.
    pub open spec fn decode(bytes: Seq<u8>) -> Result<PackVoucherView, PackError> {
        if bytes.len() != PACK_VOUCHER_LEN {
            Err(PackError::InvalidAccountData)
        } else if bytes[0] != AccountType::PackVoucher.spec_tag() {
            Err(PackError::InvalidAccountData)
        } else if ActionOnProve::spec_from_byte(bytes[73]) is None {
            Err(PackError::InvalidAccountData)
        } else if parse_option_u32(bytes.subrange(74, 79)) is Err {
            Err(PackError::InvalidAccountData)
        } else {
            Ok(
                PackVoucherView {
                    account_type: AccountType::PackVoucher,
                    pack_set: bytes.subrange(1, 33),
                    master: bytes.subrange(33, 65),
                    index: spec_u32_from_le_bytes(bytes.subrange(65, 69)),
                    max_supply: parse_option_u32(bytes.subrange(74, 79))->Ok_0,
                    number_to_open: spec_u32_from_le_bytes(bytes.subrange(69, 73)),
                    action_on_prove: ActionOnProve::spec_from_byte(bytes[73])->0,
                },
            )
        }
    }

    /// Whether the value is a voucher, not blank storage.
    pub open spec fn is_initialized(self) -> bool {
        self.account_type == AccountType::PackVoucher
    }
}

/// Vouchers as mathematical values.
pub open spec fn voucher_views(vouchers: Seq<PackVoucher>) -> Seq<PackVoucherView> {
    vouchers.map_values(|v: PackVoucher| v@)
}

/// The indices that vouchers carry.
pub open spec fn voucher_indices(vouchers: Seq<PackVoucherView>) -> Seq<u32> {
    vouchers.map_values(|v: PackVoucherView| v.index)
}

/// Decoding the bytes of a voucher gives the voucher back, and those bytes
/// have the record's fixed length.
pub proof fn lemma_pack_voucher_roundtrip(v: PackVoucherView)
    requires
        v.wf(),
        v.is_initialized(),
    ensures
        v.encode().len() == PACK_VOUCHER_LEN,
        PackVoucherView::decode(v.encode()) == Ok::<PackVoucherView, PackError>(v),
{
    lemma_auto_spec_u32_to_from_le_bytes();
    lemma_option_u32_roundtrip(v.max_supply);
    let b = v.encode();
    assert(b.len() == 79);
    assert(b[0] == 3u8);
    assert(b.subrange(1, 33) =~= v.pack_set);
    assert(b.subrange(33, 65) =~= v.master);
    assert(b.subrange(65, 69) =~= spec_u32_to_le_bytes(v.index));
    assert(b.subrange(69, 73) =~= spec_u32_to_le_bytes(v.number_to_open));
    assert(b[73] == v.action_on_prove.spec_byte());
    assert(b.subrange(74, 79) =~= option_u32_bytes(v.max_supply));
}

impl PackVoucher {
    /// The number of bytes of a stored voucher.
    pub const LEN: usize = 79;

    /// Whether the value is a voucher, not blank storage.
    pub fn is_initialized(&self) -> (yes: bool)
        ensures
            yes == self@.is_initialized(),
    {
        match self.account_type {
            AccountType::PackVoucher => true,
            _ => false,
        }
    }

    /// A voucher that has just been registered.
    pub fn new(
        pack_set: Key,
        master: Key,
        index: u32,
        max_supply: Option<u32>,
        number_to_open: u32,
        action_on_prove: ActionOnProve,
    ) -> (voucher: PackVoucher)
        ensures
            voucher@ == (PackVoucherView {
                account_type: AccountType::PackVoucher,
                pack_set: pack_set@,
                master: master@,
                index,
                max_supply,
                number_to_open,
                action_on_prove,
            }),
    {
        PackVoucher {
            account_type: AccountType::PackVoucher,
            pack_set,
            master,
            index,
            max_supply,
            number_to_open,
            action_on_prove,
        }
    }

    /// The record's bytes.
    pub fn pack(&self) -> (out: Vec<u8>)
        ensures
            out@ == self@.encode(),
    {
        let mut out: Vec<u8> = Vec::new();
        out.push(self.account_type.tag());
        put_key(&mut out, &self.pack_set);
        put_key(&mut out, &self.master);
        put_u32(&mut out, self.index);
        put_u32(&mut out, self.number_to_open);
        out.push(self.action_on_prove.byte());
        put_option_u32(&mut out, self.max_supply);
        assert(out@ =~= self@.encode());
        out
    }

    /// The voucher stored in `input`, or `InvalidAccountData` where the bytes
    /// hold none.
    pub fn unpack(input: &[u8]) -> (r: Result<PackVoucher, PackError>)
        ensures
            match r {
                Ok(p) => PackVoucherView::decode(input@) == Ok::<PackVoucherView, PackError>(p@),
                Err(e) => PackVoucherView::decode(input@) == Err::<PackVoucherView, PackError>(e),
            },
    {
        if input.len() != 79 {
            return Err(PackError::InvalidAccountData);
        }
        if input[0] != AccountType::PackVoucher.tag() {
            return Err(PackError::InvalidAccountData);
        }
        let action_on_prove = match ActionOnProve::from_byte(input[73]) {
            Some(a) => a,
            None => {
                return Err(PackError::InvalidAccountData);
            },
        };
        let max_supply = match read_option_u32(input, 74) {
            Ok(m) => m,
            Err(_) => {
                return Err(PackError::InvalidAccountData);
            },
        };
        Ok(
            PackVoucher {
                account_type: AccountType::PackVoucher,
                pack_set: read_key(input, 1),
                master: read_key(input, 33),
                index: read_u32(input, 65),
                max_supply,
                number_to_open: read_u32(input, 69),
                action_on_prove,
            },
        )
    }
}

} // verus!
