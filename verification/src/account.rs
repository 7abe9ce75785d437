//! Identities and the storage regions ("accounts") that an instruction is
//! handed, as plain values.

use vstd::prelude::*;

verus! {

/// A 32-byte identity: an account's address, an owner, an authority.
#[derive(Clone, Copy, Debug, PartialEq, Eq)]
pub struct Key {
    pub bytes: [u8; 32],
}

impl View for Key {
    type V = Seq<u8>;

    open spec fn view(&self) -> Seq<u8> {
        self.bytes@
    }
}

impl Key {
    /// The key made of the given bytes.
    pub fn new(bytes: [u8; 32]) -> (k: Key)
        ensures
            k@ == bytes@,
            k.bytes == bytes,
    {
        Key { bytes }
    }

    /// Whether two keys hold the same bytes.
    pub fn equals(&self, other: &Key) -> (same: bool)
        ensures
            same == (self@ == other@),
    {
        let mut i: usize = 0;
        while i < 32
            invariant
                i <= 32,
                forall|j: int| 0 <= j < i ==> self.bytes@[j] == other.bytes@[j],
            decreases 32 - i,
        {
            if self.bytes[i] != other.bytes[i] {
                return false;
            }
            i = i + 1;
        }
        assert(self@ =~= other@);
        true
    }

    /// The key's bytes as a vector.
    pub fn to_vec(&self) -> (v: Vec<u8>)
        ensures
            v@ == self@,
    {
        let mut v: Vec<u8> = Vec::new();
        let mut i: usize = 0;
        while i < 32
            invariant
                i <= 32,
                v@ == self@.subrange(0, i as int),
            decreases 32 - i,
        {
            v.push(self.bytes[i]);
            i = i + 1;
        }
        assert(v@ =~= self@);
        v
    }
}

/// What an instruction sees of one account.
#[derive(Clone, Debug, PartialEq, Eq)]
pub struct Account {
    /// The account's address.
    pub key: Key,
    /// The program that owns the account.
    pub owner: Key,
    /// Whether the account co-signed the transaction.
    pub is_signer: bool,
    /// The native balance the account holds.
    pub lamports: u64,
    /// The bytes stored in the account.
    pub data: Vec<u8>,
}

/// An account as a mathematical value: its stored bytes are a sequence.
pub struct AccountView {
    pub key: Key,
    pub owner: Key,
    pub is_signer: bool,
    pub lamports: u64,
    pub data: Seq<u8>,
}

impl View for Account {
    type V = AccountView;

    open spec fn view(&self) -> AccountView {
        AccountView {
            key: self.key,
            owner: self.owner,
            is_signer: self.is_signer,
            lamports: self.lamports,
            data: self.data@,
        }
    }
}

/// The accounts of an instruction, each as a mathematical value.
pub open spec fn ledger(accounts: Seq<Account>) -> Seq<AccountView> {
    accounts.map_values(|a: Account| a@)
}

impl AccountView {
    /// Whether the stored bytes start with the kind tag of some record:
    /// storage that is empty or starts with a zero byte holds none.
    pub open spec fn holds_record(self) -> bool {
        self.data.len() > 0 && self.data[0] != 0
    }
}

impl Account {
    /// Whether the stored bytes start with the kind tag of some record.
    pub fn holds_record(&self) -> (yes: bool)
        ensures
            yes == self@.holds_record(),
    {
        self.data.len() > 0 && self.data[0] != 0
    }

    /// The same account holding other bytes and owned by `owner`.
    pub fn allocated(&self, owner: Key, data: Vec<u8>) -> (a: Account)
        ensures
            a@ == (AccountView { owner, data: data@, ..self@ }),
    {
        Account { key: self.key, owner, is_signer: self.is_signer, lamports: self.lamports, data }
    }

    /// An account with the given contents.
    pub fn new(key: Key, owner: Key, is_signer: bool, lamports: u64, data: Vec<u8>) -> (a: Account)
        ensures
            a@ == (AccountView { key, owner, is_signer, lamports, data: data@ }),
    {
        Account { key, owner, is_signer, lamports, data }
    }

    /// The same account holding other bytes.
    pub fn with_data(&self, data: Vec<u8>) -> (a: Account)
        ensures
            a@ == (AccountView { data: data@, ..self@ }),
    {
        Account {
            key: self.key,
            owner: self.owner,
            is_signer: self.is_signer,
            lamports: self.lamports,
            data,
        }
    }
}

} // verus!
