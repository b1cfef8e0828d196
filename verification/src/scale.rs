//! SCALE: fixed-width little-endian integers and compact integers, read from a
//! byte slice at a position.
use vstd::prelude::*;
use vstd::slice::slice_subrange;

verus! {

/// The number that `bytes` write, least significant byte first.
pub open spec fn le_value(bytes: Seq<u8>) -> nat
    decreases bytes.len(),
{
    if bytes.len() == 0 {
        0
    } else {
        bytes[0] as nat + 256 * le_value(bytes.drop_first())
    }
}

/// 256 to the power of `n`.
pub open spec fn pow256(n: nat) -> nat
    decreases n,
{
    if n == 0 {
        1
    } else {
        256 * pow256((n - 1) as nat)
    }
}

/// What is left of `bytes` from `pos` on.
pub open spec fn rest(bytes: Seq<u8>, pos: int) -> Seq<u8> {
    bytes.subrange(pos, bytes.len() as int)
}

/// The fixed-width integer of `width` bytes at the start of `input`, if it is whole.
pub open spec fn fixed_value(input: Seq<u8>, width: int) -> Option<nat> {
    if input.len() >= width {
        Some(le_value(input.subrange(0, width)))
    } else {
        None
    }
}

/// Least value that the multi-byte form of a compact integer may carry in `count` bytes:
/// below it a shorter form exists, and the longer one is refused.
pub open spec fn compact_floor(count: nat) -> nat {
    if count == 4 {
        0x4000_0000
    } else {
        pow256((count - 1) as nat)
    }
}

/// The compact integer at the start of `input`, for a target type of `width` bytes.
///
/// The two low bits of the first byte choose the form: one byte, two bytes, four
/// bytes, each holding the value shifted left by two; or a count of following bytes.
/// A value written in a longer form than it needs, a count beyond `width`, and an
/// input that ends early all yield nothing.
pub open spec fn compact_value(input: Seq<u8>, width: nat) -> Option<nat> {
    if input.len() == 0 {
        None
    } else {
        let mode = input[0] % 4;
        if mode == 0 {
            Some(input[0] as nat / 4)
        } else if mode == 1 {
            if input.len() >= 2 && le_value(input.subrange(0, 2)) / 4 > 0x3F {
                Some(le_value(input.subrange(0, 2)) / 4)
            } else {
                None
            }
        } else if mode == 2 {
            if input.len() >= 4 && le_value(input.subrange(0, 4)) / 4 > 0x3FFF {
                Some(le_value(input.subrange(0, 4)) / 4)
            } else {
                None
            }
        } else {
            let count = input[0] as nat / 4 + 4;
            if count <= width && input.len() >= 1 + count && le_value(
                input.subrange(1, 1 + count as int),
            ) >= compact_floor(count) {
                Some(le_value(input.subrange(1, 1 + count as int)))
            } else {
                None
            }
        }
    }
}

/// Number of bytes that the compact integer announced by the first byte of `input` takes.
pub open spec fn compact_size(input: Seq<u8>) -> nat {
    if input.len() == 0 {
        0
    } else {
        let mode = input[0] % 4;
        if mode == 0 {
            1
        } else if mode == 1 {
            2
        } else if mode == 2 {
            4
        } else {
            input[0] as nat / 4 + 5
        }
    }
}

/// `<u16 as parity_scale_codec::Decode>::decode` on a byte slice: the first two
/// bytes, least significant first, or nothing where the slice is shorter.
#[verifier::external_body]
pub(crate) fn codec_u16(input: &[u8]) -> (value: Option<u16>)
    ensures
        match value {
            Some(v) => fixed_value(input@, 2) == Some(v as nat),
            None => fixed_value(input@, 2) is None,
        },
{
    let mut cursor = input;
    <u16 as parity_scale_codec::Decode>::decode(&mut cursor).ok()
}

/// `<u32 as parity_scale_codec::Decode>::decode` on a byte slice: the first four
/// bytes, least significant first, or nothing where the slice is shorter.
#[verifier::external_body]
pub(crate) fn codec_u32(input: &[u8]) -> (value: Option<u32>)
    ensures
        match value {
            Some(v) => fixed_value(input@, 4) == Some(v as nat),
            None => fixed_value(input@, 4) is None,
        },
{
    let mut cursor = input;
    <u32 as parity_scale_codec::Decode>::decode(&mut cursor).ok()
}

/// `<u64 as parity_scale_codec::Decode>::decode` on a byte slice: the first eight
/// bytes, least significant first, or nothing where the slice is shorter.
#[verifier::external_body]
pub(crate) fn codec_u64(input: &[u8]) -> (value: Option<u64>)
    ensures
        match value {
            Some(v) => fixed_value(input@, 8) == Some(v as nat),
            None => fixed_value(input@, 8) is None,
        },
{
    let mut cursor = input;
    <u64 as parity_scale_codec::Decode>::decode(&mut cursor).ok()
}

/// `<u128 as parity_scale_codec::Decode>::decode` on a byte slice: the first sixteen
/// bytes, least significant first, or nothing where the slice is shorter.
#[verifier::external_body]
pub(crate) fn codec_u128(input: &[u8]) -> (value: Option<u128>)
    ensures
        match value {
            Some(v) => fixed_value(input@, 16) == Some(v as nat),
            None => fixed_value(input@, 16) is None,
        },
{
    let mut cursor = input;
    <u128 as parity_scale_codec::Decode>::decode(&mut cursor).ok()
}

/// `<Compact<u32> as parity_scale_codec::Decode>::decode` on a byte slice: the
/// compact integer at its start, refused where it is not in its shortest form,
/// does not fit 32 bits, or is cut short.
#[verifier::external_body]
pub(crate) fn codec_compact_u32(input: &[u8]) -> (value: Option<u32>)
    ensures
        match value {
            Some(v) => compact_value(input@, 4) == Some(v as nat),
            None => compact_value(input@, 4) is None,
        },
{
    let mut cursor = input;
    <parity_scale_codec::Compact<u32> as parity_scale_codec::Decode>::decode(&mut cursor).ok().map(
        |compact| compact.0,
    )
}

/// `<Compact<u64> as parity_scale_codec::Decode>::decode` on a byte slice: the
/// compact integer at its start, refused where it is not in its shortest form,
/// does not fit 64 bits, or is cut short.
#[verifier::external_body]
pub(crate) fn codec_compact_u64(input: &[u8]) -> (value: Option<u64>)
    ensures
        match value {
            Some(v) => compact_value(input@, 8) == Some(v as nat),
            None => compact_value(input@, 8) is None,
        },
{
    let mut cursor = input;
    <parity_scale_codec::Compact<u64> as parity_scale_codec::Decode>::decode(&mut cursor).ok().map(
        |compact| compact.0,
    )
}

/// `<Compact<u128> as parity_scale_codec::Decode>::decode` on a byte slice: the
/// compact integer at its start, refused where it is not in its shortest form,
/// does not fit 128 bits, or is cut short.
#[verifier::external_body]
pub(crate) fn codec_compact_u128(input: &[u8]) -> (value: Option<u128>)
    ensures
        match value {
            Some(v) => compact_value(input@, 16) == Some(v as nat),
            None => compact_value(input@, 16) is None,
        },
{
    let mut cursor = input;
    <parity_scale_codec::Compact<u128> as parity_scale_codec::Decode>::decode(&mut cursor).ok().map(
        |compact| compact.0,
    )
}

/// The byte at `pos`.
pub fn read_u8(bytes: &[u8], pos: usize) -> (read: Option<(u8, usize)>)
    ensures
        match read {
            Some((value, next)) => pos < bytes@.len() && value == bytes@[pos as int] && next == pos
                + 1,
            None => pos >= bytes@.len(),
        },
{
    if pos < bytes.len() {
        Some((bytes[pos], pos + 1))
    } else {
        None
    }
}

/// The two-byte integer at `pos`.
pub fn read_u16(bytes: &[u8], pos: usize) -> (read: Option<(u16, usize)>)
    ensures
        match read {
            Some((value, next)) => pos <= bytes@.len() && fixed_value(rest(bytes@, pos as int), 2)
                == Some(value as nat) && next == pos + 2 && next <= bytes@.len(),
            None => pos > bytes@.len() || fixed_value(rest(bytes@, pos as int), 2) is None,
        },
{
    if pos > bytes.len() {
        return None;
    }
    match codec_u16(slice_subrange(bytes, pos, bytes.len())) {
        Some(value) => Some((value, pos + 2)),
        None => None,
    }
}

/// The four-byte integer at `pos`.
pub fn read_u32(bytes: &[u8], pos: usize) -> (read: Option<(u32, usize)>)
    ensures
        match read {
            Some((value, next)) => pos <= bytes@.len() && fixed_value(rest(bytes@, pos as int), 4)
                == Some(value as nat) && next == pos + 4 && next <= bytes@.len(),
            None => pos > bytes@.len() || fixed_value(rest(bytes@, pos as int), 4) is None,
        },
{
    if pos > bytes.len() {
        return None;
    }
    match codec_u32(slice_subrange(bytes, pos, bytes.len())) {
        Some(value) => Some((value, pos + 4)),
        None => None,
    }
}

/// The eight-byte integer at `pos`.
pub fn read_u64(bytes: &[u8], pos: usize) -> (read: Option<(u64, usize)>)
    ensures
        match read {
            Some((value, next)) => pos <= bytes@.len() && fixed_value(rest(bytes@, pos as int), 8)
                == Some(value as nat) && next == pos + 8 && next <= bytes@.len(),
            None => pos > bytes@.len() || fixed_value(rest(bytes@, pos as int), 8) is None,
        },
{
    if pos > bytes.len() {
        return None;
    }
    match codec_u64(slice_subrange(bytes, pos, bytes.len())) {
        Some(value) => Some((value, pos + 8)),
        None => None,
    }
}

/// The sixteen-byte integer at `pos`.
pub fn read_u128(bytes: &[u8], pos: usize) -> (read: Option<(u128, usize)>)
    ensures
        match read {
            Some((value, next)) => pos <= bytes@.len() && fixed_value(rest(bytes@, pos as int), 16)
                == Some(value as nat) && next == pos + 16 && next <= bytes@.len(),
            None => pos > bytes@.len() || fixed_value(rest(bytes@, pos as int), 16) is None,
        },
{
    if pos > bytes.len() {
        return None;
    }
    match codec_u128(slice_subrange(bytes, pos, bytes.len())) {
        Some(value) => Some((value, pos + 16)),
        None => None,
    }
}

/// A compact integer that is there takes the bytes its first byte announces, all of them present.
pub proof fn lemma_compact_size(input: Seq<u8>, width: nat)
    requires
        compact_value(input, width) is Some,
        width <= 16,
    ensures
        1 <= compact_size(input) <= input.len(),
        compact_size(input) <= 17,
{
}

/// Number of bytes of the compact integer whose first byte is `first`.
fn compact_size_of(first: u8) -> (size: usize)
    ensures
        forall|input: Seq<u8>| input.len() > 0 && input[0] == first ==> size == #[trigger] compact_size(input),
        1 <= size <= 68,
{
    let mode = first % 4;
    if mode == 0 {
        1
    } else if mode == 1 {
        2
    } else if mode == 2 {
        4
    } else {
        (first / 4) as usize + 5
    }
}

/// The compact integer of at most 32 bits at `pos`.
pub fn read_compact_u32(bytes: &[u8], pos: usize) -> (read: Option<(u32, usize)>)
    ensures
        match read {
            Some((value, next)) => pos < bytes@.len() && compact_value(rest(bytes@, pos as int), 4)
                == Some(value as nat) && next == pos + compact_size(rest(bytes@, pos as int))
                && next <= bytes@.len(),
            None => pos >= bytes@.len() || compact_value(rest(bytes@, pos as int), 4) is None,
        },
{
    if pos >= bytes.len() {
        return None;
    }
    match codec_compact_u32(slice_subrange(bytes, pos, bytes.len())) {
        Some(value) => {
            proof {
                lemma_compact_size(rest(bytes@, pos as int), 4);
            }
            Some((value, pos + compact_size_of(bytes[pos])))
        },
        None => None,
    }
}

/// The compact integer of at most 64 bits at `pos`.
pub fn read_compact_u64(bytes: &[u8], pos: usize) -> (read: Option<(u64, usize)>)
    ensures
        match read {
            Some((value, next)) => pos < bytes@.len() && compact_value(rest(bytes@, pos as int), 8)
                == Some(value as nat) && next == pos + compact_size(rest(bytes@, pos as int))
                && next <= bytes@.len(),
            None => pos >= bytes@.len() || compact_value(rest(bytes@, pos as int), 8) is None,
        },
{
    if pos >= bytes.len() {
        return None;
    }
    match codec_compact_u64(slice_subrange(bytes, pos, bytes.len())) {
        Some(value) => {
            proof {
                lemma_compact_size(rest(bytes@, pos as int), 8);
            }
            Some((value, pos + compact_size_of(bytes[pos])))
        },
        None => None,
    }
}

/// The compact integer of at most 128 bits at `pos`.
pub fn read_compact_u128(bytes: &[u8], pos: usize) -> (read: Option<(u128, usize)>)
    ensures
        match read {
            Some((value, next)) => pos < bytes@.len() && compact_value(
                rest(bytes@, pos as int),
                16,
            ) == Some(value as nat) && next == pos + compact_size(rest(bytes@, pos as int))
                && next <= bytes@.len(),
            None => pos >= bytes@.len() || compact_value(rest(bytes@, pos as int), 16) is None,
        },
{
    if pos >= bytes.len() {
        return None;
    }
    match codec_compact_u128(slice_subrange(bytes, pos, bytes.len())) {
        Some(value) => {
            proof {
                lemma_compact_size(rest(bytes@, pos as int), 16);
            }
            Some((value, pos + compact_size_of(bytes[pos])))
        },
        None => None,
    }
}

/// The `count` bytes at `pos`, copied.
pub fn read_bytes(bytes: &[u8], pos: usize, count: usize) -> (read: Option<(Vec<u8>, usize)>)
    ensures
        match read {
            Some((taken, next)) => pos + count <= bytes@.len() && taken@ == bytes@.subrange(
                pos as int,
                pos + count,
            ) && next == pos + count,
            None => pos + count > bytes@.len(),
        },
{
    let n = bytes.len();
    if pos > n || count > n - pos {
        return None;
    }
    let mut taken: Vec<u8> = Vec::new();
    let mut i: usize = 0;
    assert(taken@ =~= bytes@.subrange(pos as int, pos + 0));
    while i < count
        invariant
            i <= count,
            n == bytes@.len(),
            pos + count <= n,
            taken@ == bytes@.subrange(pos as int, pos + i),
        decreases count - i,
    {
        taken.push(bytes[pos + i]);
        assert(taken@ =~= bytes@.subrange(pos as int, pos + i + 1));
        i += 1;
    }
    Some((taken, pos + count))
}

} // verus!
