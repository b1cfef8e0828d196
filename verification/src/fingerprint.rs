//! Stable 64-bit fingerprints of byte strings.
use std::collections::hash_map::DefaultHasher;
use std::hash::Hasher;
use vstd::prelude::*;
use vstd::std_specs::hash::DefaultHasherAdditionalSpecFns;
use vstd::string::StringSliceAdditionalSpecFns;
use vstd::utf8::encode_utf8;

verus! {

/// The fingerprint of `bytes`: what the standard library's default hasher gives
/// after one write of them. It does not vary between processes.
pub open spec fn fingerprint_of(bytes: Seq<u8>) -> u64 {
    DefaultHasher::spec_finish(seq![bytes])
}

/// Computes the fingerprint of `bytes`.
pub fn fingerprint(bytes: &[u8]) -> (hash: u64)
    ensures
        hash == fingerprint_of(bytes@),
{
    let mut hasher = DefaultHasher::new();
    hasher.write(bytes);
    assert(hasher@ =~= seq![bytes@]);
    hasher.finish()
}

/// The fingerprint of the UTF-8 bytes of a text.
pub open spec fn text_fingerprint(text: Seq<char>) -> u64 {
    fingerprint_of(encode_utf8(text))
}

/// Computes the fingerprint of the UTF-8 bytes of `text`.
pub fn fingerprint_text(text: &str) -> (hash: u64)
    ensures
        hash == text_fingerprint(text@),
{
    fingerprint(text.as_bytes())
}

} // verus!
