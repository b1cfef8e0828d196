//! Storage keys: how the name of a storage item and the key of a map entry are
//! hashed into the key under which the node keeps the value.
use crate::account::AccountId;
use crate::hex_codec::{encode_hex, hex_text};
use crate::metadata::{
    HasherKind, StorageEntryShape, StorageEntryType, StorageHasher, StorageMetadata,
};
use vstd::array::array_as_slice;
use vstd::prelude::*;
use vstd::string::StringSliceAdditionalSpecFns;
use vstd::utf8::encode_utf8;

verus! {

/// The 16-byte Blake2b digest of `data`.
pub uninterp spec fn blake2_128_of(data: Seq<u8>) -> Seq<u8>;

/// The 32-byte Blake2b digest of `data`.
pub uninterp spec fn blake2_256_of(data: Seq<u8>) -> Seq<u8>;

/// The 8-byte XX hash of `data`.
pub uninterp spec fn twox_64_of(data: Seq<u8>) -> Seq<u8>;

/// The 16-byte XX hash of `data`.
pub uninterp spec fn twox_128_of(data: Seq<u8>) -> Seq<u8>;

/// The 32-byte XX hash of `data`.
pub uninterp spec fn twox_256_of(data: Seq<u8>) -> Seq<u8>;

/// `sp_crypto_hashing::blake2_128`: the 16-byte Blake2b digest, a function of the data alone.
pub assume_specification[ sp_crypto_hashing::blake2_128 ](data: &[u8]) -> (digest: [u8; 16])
    ensures
        digest@ == blake2_128_of(data@),
;

/// `sp_crypto_hashing::blake2_256`: the 32-byte Blake2b digest, a function of the data alone.
pub assume_specification[ sp_crypto_hashing::blake2_256 ](data: &[u8]) -> (digest: [u8; 32])
    ensures
        digest@ == blake2_256_of(data@),
;

/// `sp_crypto_hashing::twox_64`: the 8-byte XX hash, a function of the data alone.
pub assume_specification[ sp_crypto_hashing::twox_64 ](data: &[u8]) -> (digest: [u8; 8])
    ensures
        digest@ == twox_64_of(data@),
;

/// `sp_crypto_hashing::twox_128`: the 16-byte XX hash, a function of the data alone.
pub assume_specification[ sp_crypto_hashing::twox_128 ](data: &[u8]) -> (digest: [u8; 16])
    ensures
        digest@ == twox_128_of(data@),
;

/// `sp_crypto_hashing::twox_256`: the 32-byte XX hash, a function of the data alone.
pub assume_specification[ sp_crypto_hashing::twox_256 ](data: &[u8]) -> (digest: [u8; 32])
    ensures
        digest@ == twox_256_of(data@),
;

/// What a hasher makes of `bytes`: the bytes themselves, a digest of them, or a
/// digest followed by them.
pub open spec fn hashed(kind: HasherKind, bytes: Seq<u8>) -> Seq<u8> {
    match kind {
        HasherKind::Identity => bytes,
        HasherKind::Blake2_128 => blake2_128_of(bytes),
        HasherKind::Blake2_128Concat => blake2_128_of(bytes) + bytes,
        HasherKind::Blake2_256 => blake2_256_of(bytes),
        HasherKind::Twox128 => twox_128_of(bytes),
        HasherKind::Twox256 => twox_256_of(bytes),
        HasherKind::Twox64Concat => twox_64_of(bytes) + bytes,
    }
}

/// Appends the bytes of `source` to `out`.
pub fn extend(out: &mut Vec<u8>, source: &[u8])
    ensures
        final(out)@ == old(out)@ + source@,
{
    let mut i: usize = 0;
    assert(out@ =~= old(out)@ + source@.subrange(0, 0));
    while i < source.len()
        invariant
            i <= source@.len(),
            out@ == old(out)@ + source@.subrange(0, i as int),
        decreases source@.len() - i,
    {
        out.push(source[i]);
        assert(out@ =~= old(out)@ + source@.subrange(0, i + 1));
        i += 1;
    }
    assert(source@.subrange(0, source@.len() as int) =~= source@);
}

/// Hashes `bytes` the way `kind` says.
pub fn hash(kind: HasherKind, bytes: &[u8]) -> (out: Vec<u8>)
    ensures
        out@ == hashed(kind, bytes@),
{
    let mut out: Vec<u8> = Vec::new();
    match kind {
        HasherKind::Identity => {
            extend(&mut out, bytes);
        },
        HasherKind::Blake2_128 => {
            let digest = sp_crypto_hashing::blake2_128(bytes);
            extend(&mut out, array_as_slice(&digest));
        },
        HasherKind::Blake2_128Concat => {
            let digest = sp_crypto_hashing::blake2_128(bytes);
            extend(&mut out, array_as_slice(&digest));
            extend(&mut out, bytes);
        },
        HasherKind::Blake2_256 => {
            let digest = sp_crypto_hashing::blake2_256(bytes);
            extend(&mut out, array_as_slice(&digest));
        },
        HasherKind::Twox128 => {
            let digest = sp_crypto_hashing::twox_128(bytes);
            extend(&mut out, array_as_slice(&digest));
        },
        HasherKind::Twox256 => {
            let digest = sp_crypto_hashing::twox_256(bytes);
            extend(&mut out, array_as_slice(&digest));
        },
        HasherKind::Twox64Concat => {
            let digest = sp_crypto_hashing::twox_64(bytes);
            extend(&mut out, array_as_slice(&digest));
            extend(&mut out, bytes);
        },
    }
    assert(out@ =~= hashed(kind, bytes@));
    out
}

impl StorageMetadata {
    /// Hashes `bytes` with the hasher that the metadata names.
    pub fn hash(hasher: &StorageHasher, bytes: &[u8]) -> (out: Vec<u8>)
        ensures
            out@ == hashed(hasher.kind(), bytes@),
    {
        hash(hasher.kind(), bytes)
    }

    /// Hashes the key of an account: its 32 bytes, which are their own encoding.
    pub fn hash_key(hasher: &StorageHasher, key: &AccountId) -> (out: Vec<u8>)
        ensures
            out@ == hashed(hasher.kind(), key@),
    {
        hash(hasher.kind(), key.as_slice())
    }
}

/// The key of a plain storage item: the XX hashes of the names of its module and
/// of the item, 16 bytes each.
pub open spec fn plain_key(module: Seq<char>, item: Seq<char>) -> Seq<u8> {
    twox_128_of(encode_utf8(module)) + twox_128_of(encode_utf8(item))
}

/// The key of an entry of a storage map: the key of the item, then the hashed key
/// of the entry.
pub open spec fn map_key(module: Seq<char>, item: Seq<char>, kind: HasherKind, key: Seq<u8>) -> Seq<
    u8,
> {
    plain_key(module, item) + hashed(kind, key)
}

/// Builds [`plain_key`].
pub fn get_storage_plain_key(module: &str, item: &str) -> (key: Vec<u8>)
    ensures
        key@ == plain_key(module@, item@),
{
    let mut key: Vec<u8> = Vec::new();
    let module_hash = sp_crypto_hashing::twox_128(module.as_bytes());
    let item_hash = sp_crypto_hashing::twox_128(item.as_bytes());
    extend(&mut key, array_as_slice(&module_hash));
    extend(&mut key, array_as_slice(&item_hash));
    assert(key@ =~= plain_key(module@, item@));
    key
}

/// Builds [`map_key`].
pub fn get_storage_map_key(module: &str, item: &str, hasher: &StorageHasher, key: &[u8]) -> (out:
    Vec<u8>)
    ensures
        out@ == map_key(module@, item@, hasher.kind(), key@),
{
    let mut out = get_storage_plain_key(module, item);
    let hashed_key = hash(hasher.kind(), key);
    extend(&mut out, hashed_key.as_slice());
    out
}

/// The four bytes of a number, the lowest first.
pub open spec fn le_bytes4(number: u32) -> Seq<u8> {
    seq![
        (number % 256) as u8,
        (number / 256 % 256) as u8,
        (number / 65536 % 256) as u8,
        (number / 16777216) as u8,
    ]
}

/// The shape of a storage entry, whatever the version of the metadata.
pub open spec fn shape_of(ty: StorageEntryType) -> StorageEntryShape {
    match ty {
        StorageEntryType::V12(shape) => shape,
        StorageEntryType::V13(shape) => shape,
    }
}

/// The hasher of the first key of a storage map.
pub open spec fn first_hasher(ty: StorageEntryType) -> Option<HasherKind> {
    match shape_of(ty) {
        StorageEntryShape::Plain(_) => None,
        StorageEntryShape::SingleMap { hasher, .. } => Some(hasher),
        StorageEntryShape::DoubleMap { hasher, .. } => Some(hasher),
        StorageEntryShape::NMap { hashers, .. } => if hashers@.len() > 0 {
            Some(hashers@[0])
        } else {
            None
        },
    }
}

/// The hasher of the second key of a storage map that has two keys or more.
pub open spec fn second_hasher(ty: StorageEntryType) -> Option<HasherKind> {
    match shape_of(ty) {
        StorageEntryShape::DoubleMap { key2_hasher, .. } => Some(key2_hasher),
        StorageEntryShape::NMap { hashers, .. } => if hashers@.len() > 1 {
            Some(hashers@[1])
        } else {
            None
        },
        _ => None,
    }
}

/// The key under which a storage map holds what it holds of an account: the
/// key of the item, by the prefixes that the metadata gives, then the hashed
/// account; for a map by era and account, the hashed index of the era comes in
/// between. There is none where the entry has not the hashers for it.
pub open spec fn entry_key(entry: StorageMetadata, era_index: Option<u32>, account: Seq<u8>) -> Option<
    Seq<u8>,
> {
    let prefix = plain_key(entry.module_prefix@, entry.storage_prefix@);
    match era_index {
        None => match first_hasher(entry.ty) {
            Some(hasher) => Some(prefix + hashed(hasher, account)),
            None => None,
        },
        Some(era) => match (first_hasher(entry.ty), second_hasher(entry.ty)) {
            (Some(first), Some(second)) => Some(
                prefix + hashed(first, le_bytes4(era)) + hashed(second, account),
            ),
            _ => None,
        },
    }
}

impl StorageMetadata {
    /// The hasher of the first key of the entry, if it is a map.
    pub fn first_hasher(&self) -> (hasher: Option<HasherKind>)
        ensures
            hasher == first_hasher(self.ty),
    {
        let shape = match &self.ty {
            StorageEntryType::V12(shape) => shape,
            StorageEntryType::V13(shape) => shape,
        };
        match shape {
            StorageEntryShape::Plain(_) => None,
            StorageEntryShape::SingleMap { hasher, .. } => Some(*hasher),
            StorageEntryShape::DoubleMap { hasher, .. } => Some(*hasher),
            StorageEntryShape::NMap { hashers, .. } => if hashers.len() > 0 {
                Some(hashers[0])
            } else {
                None
            },
        }
    }

    /// The hasher of the second key of the entry, if it has one.
    pub fn second_hasher(&self) -> (hasher: Option<HasherKind>)
        ensures
            hasher == second_hasher(self.ty),
    {
        let shape = match &self.ty {
            StorageEntryType::V12(shape) => shape,
            StorageEntryType::V13(shape) => shape,
        };
        match shape {
            StorageEntryShape::DoubleMap { key2_hasher, .. } => Some(*key2_hasher),
            StorageEntryShape::NMap { hashers, .. } => if hashers.len() > 1 {
                Some(hashers[1])
            } else {
                None
            },
            _ => None,
        }
    }

    /// The key of the item itself, under which a plain value lies and with
    /// which the keys of all the entries of a map begin.
    pub fn prefix_key(&self) -> (key: Vec<u8>)
        ensures
            key@ == plain_key(self.module_prefix@, self.storage_prefix@),
    {
        get_storage_plain_key(self.module_prefix.as_str(), self.storage_prefix.as_str())
    }

    /// Builds [`entry_key`].
    pub fn account_key(&self, era_index: Option<u32>, account: &AccountId) -> (key: Option<Vec<u8>>)
        ensures
            match entry_key(*self, era_index, account@) {
                Some(expected) => key matches Some(built) && built@ == expected,
                None => key is None,
            },
    {
        let mut key = self.prefix_key();
        match era_index {
            None => match self.first_hasher() {
                Some(hasher) => {
                    let hashed_account = hash(hasher, account.as_slice());
                    extend(&mut key, hashed_account.as_slice());
                    Some(key)
                },
                None => None,
            },
            Some(era) => match (self.first_hasher(), self.second_hasher()) {
                (Some(first), Some(second)) => {
                    let mut era_bytes: Vec<u8> = Vec::new();
                    era_bytes.push((era % 256) as u8);
                    era_bytes.push((era / 256 % 256) as u8);
                    era_bytes.push((era / 65536 % 256) as u8);
                    era_bytes.push((era / 16777216) as u8);
                    assert(era_bytes@ =~= le_bytes4(era));
                    let hashed_era = hash(first, era_bytes.as_slice());
                    let hashed_account = hash(second, account.as_slice());
                    extend(&mut key, hashed_era.as_slice());
                    extend(&mut key, hashed_account.as_slice());
                    Some(key)
                },
                _ => None,
            },
        }
    }
}

/// The text of a storage key as the node's RPC interface takes it: `0x` and
/// lower-case hexadecimal digits.
pub fn storage_key_text(key: &[u8]) -> (text: String)
    ensures
        text@ == seq!['0', 'x'] + hex_text(key@, false),
{
    encode_hex(key)
}

} // verus!
