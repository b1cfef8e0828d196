//! Account identifiers: 32 raw bytes.
use crate::hex_codec::{
    decode_hex, encode_hex_upper, hex_bytes, hex_decode, hex_text, is_hex_text,
    without_hex_prefix,
};
use std::collections::hash_map::DefaultHasher;
use std::hash::Hasher;
use vstd::array::array_as_slice;
use vstd::prelude::*;
use vstd::std_specs::hash::DefaultHasherAdditionalSpecFns;
use vstd::string::*;

verus! {

/// Identifier of an account: its 32-byte public key.
#[derive(Clone, Copy, Debug, PartialEq, Eq, Hash)]
pub struct AccountId {
    pub bytes: [u8; 32],
}

impl View for AccountId {
    type V = Seq<u8>;

    open spec fn view(&self) -> Seq<u8> {
        self.bytes@
    }
}

impl AccountId {
    /// The account made of the given bytes.
    pub fn new(bytes: [u8; 32]) -> (id: AccountId)
        ensures
            id@ == bytes@,
    {
        AccountId { bytes }
    }

    /// Whether two identifiers hold the same bytes.
    pub fn same(&self, other: &AccountId) -> (equal: bool)
        ensures
            equal == (self@ == other@),
    {
        let mut i: usize = 0;
        while i < 32
            invariant
                i <= 32,
                forall|j: int| 0 <= j < i ==> self.bytes@[j] == other.bytes@[j],
            decreases 32 - i,
        {
            if self.bytes[i] != other.bytes[i] {
                return false;
            }
            i += 1;
        }
        assert(self@ =~= other@);
        true
    }

    /// The identifier held in the last 32 bytes of a storage key, if the key is that long.
    pub fn from_storage_key(key: &[u8]) -> (id: Option<AccountId>)
        ensures
            key@.len() < 32 ==> id is None,
            key@.len() >= 32 ==> (id matches Some(account) && account@ == key@.subrange(
                key@.len() - 32,
                key@.len() as int,
            )),
    {
        let n = key.len();
        if n < 32 {
            return None;
        }
        let mut bytes: [u8; 32] = [0u8; 32];
        let mut i: usize = 0;
        while i < 32
            invariant
                i <= 32,
                n == key@.len(),
                n >= 32,
                forall|j: int| 0 <= j < i ==> bytes@[j] == key@[n - 32 + j],
            decreases 32 - i,
        {
            bytes[i] = key[n - 32 + i];
            i += 1;
        }
        let account = AccountId { bytes };
        assert(account@ =~= key@.subrange(key@.len() - 32, key@.len() as int));
        Some(account)
    }
}

} // verus!

verus! {

/// The eight bytes that the standard library writes for the length of an identifier
/// before it hashes its bytes.
pub open spec fn length_prefix() -> Seq<u8> {
    seq![32u8, 0u8, 0u8, 0u8, 0u8, 0u8, 0u8, 0u8]
}

/// The key by which accounts are ordered: a stable 64-bit hash of the identifier.
pub open spec fn sort_key_of(id: Seq<u8>) -> u64 {
    DefaultHasher::spec_finish(seq![length_prefix(), id])
}

impl AccountId {
    /// The bytes of the identifier.
    pub fn as_slice(&self) -> (bytes: &[u8])
        ensures
            bytes@ == self@,
    {
        array_as_slice(&self.bytes)
    }

    /// The key by which accounts are ordered.
    pub fn sort_key(&self) -> (key: u64)
        ensures
            key == sort_key_of(self@),
    {
        let prefix: [u8; 8] = [32u8, 0u8, 0u8, 0u8, 0u8, 0u8, 0u8, 0u8];
        let mut hasher = DefaultHasher::new();
        hasher.write(array_as_slice(&prefix));
        hasher.write(array_as_slice(&self.bytes));
        assert(prefix@ =~= length_prefix());
        assert(hasher@ =~= seq![length_prefix(), self@]);
        hasher.finish()
    }

    /// The identifier made of the given bytes, if there are 32 of them.
    pub fn from_bytes(bytes: &[u8]) -> (id: Option<AccountId>)
        ensures
            match id {
                Some(account) => bytes@.len() == 32 && account@ == bytes@,
                None => bytes@.len() != 32,
            },
    {
        if bytes.len() != 32 {
            return None;
        }
        let id = AccountId::from_storage_key(bytes);
        assert(bytes@.subrange(0, 32) =~= bytes@);
        id
    }

    /// `0x` and the 64 upper-case hexadecimal digits of the identifier.
    pub fn to_string(&self) -> (text: String)
        ensures
            text@ == seq!['0', 'x'] + hex_text(self@, true),
    {
        encode_hex_upper(self.as_slice())
    }

    /// Reads an identifier from 64 hexadecimal digits, with or without `0x` in front.
    pub fn from_hex(text: &str) -> (id: Option<AccountId>)
        ensures
            match id {
                Some(account) => is_hex_text(without_hex_prefix(text@)) && without_hex_prefix(
                    text@,
                ).len() == 64 && account@ == hex_bytes(without_hex_prefix(text@)),
                None => !is_hex_text(without_hex_prefix(text@)) || without_hex_prefix(text@).len()
                    != 64,
            },
    {
        match decode_hex(text) {
            Some(bytes) => AccountId::from_bytes(bytes.as_slice()),
            None => None,
        }
    }

    /// The identifier written in the last 64 characters of the text of a storage key.
    pub fn from_storage_key_string(key: &str) -> (id: Option<AccountId>)
        ensures
            match id {
                Some(account) => key@.len() >= 64 && is_hex_text(
                    key@.subrange(key@.len() - 64, key@.len() as int),
                ) && account@ == hex_bytes(key@.subrange(key@.len() - 64, key@.len() as int)),
                None => key@.len() < 64 || !is_hex_text(
                    key@.subrange(key@.len() - 64, key@.len() as int),
                ),
            },
    {
        let n = key.unicode_len();
        if n < 64 {
            return None;
        }
        match hex_decode(key.substring_char(n - 64, n)) {
            Some(bytes) => AccountId::from_bytes(bytes.as_slice()),
            None => None,
        }
    }
}

/// Whether `id` occurs in `ids`.
pub open spec fn holds_account(ids: Seq<AccountId>, id: AccountId) -> bool {
    exists|i: int| 0 <= i < ids.len() && (#[trigger] ids[i])@ == id@
}

/// Position of the first occurrence of `id` in `ids`.
pub fn position_of(ids: &Vec<AccountId>, id: &AccountId) -> (position: Option<usize>)
    ensures
        match position {
            Some(i) => i < ids@.len() && ids@[i as int]@ == id@ && forall|j: int|
                0 <= j < i ==> (#[trigger] ids@[j])@ != id@,
            None => !holds_account(ids@, *id),
        },
{
    let mut i: usize = 0;
    while i < ids.len()
        invariant
            i <= ids@.len(),
            forall|j: int| 0 <= j < i ==> (#[trigger] ids@[j])@ != id@,
        decreases ids@.len() - i,
    {
        if ids[i].same(id) {
            return Some(i);
        }
        i += 1;
    }
    None
}

} // verus!

verus! {

/// The account whose identifier is the given 32 bytes.
pub open spec fn account_of(bytes: Seq<u8>) -> AccountId {
    choose|id: AccountId| id@ == bytes
}

/// An account is the account of its bytes.
pub proof fn lemma_account_of(id: AccountId)
    ensures
        account_of(id@) == id,
{
    let other = account_of(id@);
    assert(other@ == id@);
    assert(other.bytes =~= id.bytes);
}

} // verus!
