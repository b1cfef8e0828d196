//! Extrinsics: who signed them, and which call of which module they make.
use crate::account::AccountId;
use crate::argument::{
    argument_views, Argument, ArgumentDecodeError, ArgumentPrimitive, ArgumentView, DecodeFailure,
};
use crate::argument_meta::views_of;
use crate::chain_types::{account_at, read_account};
use crate::hex_codec::{decode_hex, hex_bytes, is_hex_text, without_hex_prefix};
use crate::metadata::{Metadata, ModuleMetadata};
use crate::scale::{
    compact_size, compact_value, read_bytes, read_compact_u32, read_compact_u64, read_u8, rest,
};
use vstd::prelude::*;
use vstd::string::*;

verus! {

/// The address of the signer of an extrinsic.
#[derive(Debug, PartialEq, Eq)]
pub enum MultiAddress {
    Id(AccountId),
    Index(u32),
    Raw(Vec<u8>),
    Address32(AccountId),
    Address20(Vec<u8>),
}

/// A signature, by the scheme that made it.
#[derive(Debug, PartialEq, Eq)]
pub enum MultiSignature {
    Ed25519(Vec<u8>),
    Sr25519(Vec<u8>),
    Ecdsa(Vec<u8>),
}

/// For how long an extrinsic is valid: for ever, or for a period of blocks from
/// a phase within it.
#[derive(Clone, Copy, Debug, PartialEq, Eq, Structural)]
pub enum Era {
    Immortal,
    Mortal(u64, u64),
}

/// What a signed extrinsic carries besides its call.
#[derive(Debug, PartialEq, Eq)]
pub struct Signature {
    pub signer: MultiAddress,
    pub signature: MultiSignature,
    pub era: Option<Era>,
    pub nonce: Option<u64>,
    pub tip: Option<u64>,
}

/// Mathematical model of a [`MultiAddress`].
pub enum MultiAddressView {
    Id(AccountId),
    Index(u32),
    Raw(Seq<u8>),
    Address32(AccountId),
    Address20(Seq<u8>),
}

/// Mathematical model of a [`MultiSignature`].
pub enum MultiSignatureView {
    Ed25519(Seq<u8>),
    Sr25519(Seq<u8>),
    Ecdsa(Seq<u8>),
}

/// Mathematical model of a [`Signature`].
pub struct SignatureView {
    pub signer: MultiAddressView,
    pub signature: MultiSignatureView,
    pub era: Option<Era>,
    pub nonce: Option<u64>,
    pub tip: Option<u64>,
}

impl View for MultiAddress {
    type V = MultiAddressView;

    open spec fn view(&self) -> MultiAddressView {
        match self {
            MultiAddress::Id(id) => MultiAddressView::Id(*id),
            MultiAddress::Index(index) => MultiAddressView::Index(*index),
            MultiAddress::Raw(bytes) => MultiAddressView::Raw(bytes@),
            MultiAddress::Address32(id) => MultiAddressView::Address32(*id),
            MultiAddress::Address20(bytes) => MultiAddressView::Address20(bytes@),
        }
    }
}

impl View for MultiSignature {
    type V = MultiSignatureView;

    open spec fn view(&self) -> MultiSignatureView {
        match self {
            MultiSignature::Ed25519(bytes) => MultiSignatureView::Ed25519(bytes@),
            MultiSignature::Sr25519(bytes) => MultiSignatureView::Sr25519(bytes@),
            MultiSignature::Ecdsa(bytes) => MultiSignatureView::Ecdsa(bytes@),
        }
    }
}

impl View for Signature {
    type V = SignatureView;

    open spec fn view(&self) -> SignatureView {
        SignatureView {
            signer: self.signer@,
            signature: self.signature@,
            era: self.era,
            nonce: self.nonce,
            tip: self.tip,
        }
    }
}

/// The `count` bytes at `pos`, if they are there, and where they end.
pub open spec fn bytes_at(bytes: Seq<u8>, pos: int, count: int) -> Option<(Seq<u8>, int)> {
    if 0 <= pos && 0 <= count && pos + count <= bytes.len() {
        Some((bytes.subrange(pos, pos + count), pos + count))
    } else {
        None
    }
}

/// The address at `pos`: one byte for its kind, then an account, a compact
/// index, bytes with their compact length in front, 32 bytes or 20 bytes.
pub open spec fn address_at(bytes: Seq<u8>, pos: int) -> Option<(MultiAddressView, int)> {
    if pos < 0 || pos >= bytes.len() {
        None
    } else if bytes[pos] == 0 {
        match account_at(bytes, pos + 1) {
            Some(id) => Some((MultiAddressView::Id(id), pos + 33)),
            None => None,
        }
    } else if bytes[pos] == 1 {
        if pos + 1 < bytes.len() && compact_value(rest(bytes, pos + 1), 4) is Some {
            Some(
                (
                    MultiAddressView::Index(compact_value(rest(bytes, pos + 1), 4)->Some_0 as u32),
                    pos + 1 + compact_size(rest(bytes, pos + 1)),
                ),
            )
        } else {
            None
        }
    } else if bytes[pos] == 2 {
        if pos + 1 < bytes.len() && compact_value(rest(bytes, pos + 1), 4) is Some {
            let length = compact_value(rest(bytes, pos + 1), 4)->Some_0 as int;
            let start = pos + 1 + compact_size(rest(bytes, pos + 1));
            match bytes_at(bytes, start, length) {
                Some((raw, next)) => Some((MultiAddressView::Raw(raw), next)),
                None => None,
            }
        } else {
            None
        }
    } else if bytes[pos] == 3 {
        match account_at(bytes, pos + 1) {
            Some(id) => Some((MultiAddressView::Address32(id), pos + 33)),
            None => None,
        }
    } else if bytes[pos] == 4 {
        match bytes_at(bytes, pos + 1, 20) {
            Some((raw, next)) => Some((MultiAddressView::Address20(raw), next)),
            None => None,
        }
    } else {
        None
    }
}

/// The signature at `pos`: one byte for its scheme, then 64 bytes, or 65 for ECDSA.
pub open spec fn multi_signature_at(bytes: Seq<u8>, pos: int) -> Option<(MultiSignatureView, int)> {
    if pos < 0 || pos >= bytes.len() {
        None
    } else if bytes[pos] == 0 {
        match bytes_at(bytes, pos + 1, 64) {
            Some((raw, next)) => Some((MultiSignatureView::Ed25519(raw), next)),
            None => None,
        }
    } else if bytes[pos] == 1 {
        match bytes_at(bytes, pos + 1, 64) {
            Some((raw, next)) => Some((MultiSignatureView::Sr25519(raw), next)),
            None => None,
        }
    } else if bytes[pos] == 2 {
        match bytes_at(bytes, pos + 1, 65) {
            Some((raw, next)) => Some((MultiSignatureView::Ecdsa(raw), next)),
            None => None,
        }
    } else {
        None
    }
}

/// Two to the power of `n`, for `n` up to 16.
pub open spec fn two_to(n: nat) -> nat
    decreases n,
{
    if n == 0 {
        1
    } else {
        2 * two_to((n - 1) as nat)
    }
}

/// The era at `pos`: one zero byte for ever; else two bytes, whose low four bits
/// give the period as a power of two and whose other bits give the phase in
/// steps of a 4096th of the period, at least one. A period under four blocks and
/// a phase beyond the period are refused.
pub open spec fn era_at(bytes: Seq<u8>, pos: int) -> Option<(Era, int)> {
    if pos < 0 || pos >= bytes.len() {
        None
    } else if bytes[pos] == 0 {
        Some((Era::Immortal, pos + 1))
    } else if pos + 1 >= bytes.len() {
        None
    } else {
        let encoded = bytes[pos] as nat + 256 * bytes[pos + 1] as nat;
        let period = 2 * two_to(encoded % 16);
        let step = if period / 4096 >= 1 {
            period / 4096
        } else {
            1
        };
        let phase = (encoded / 16) * step;
        if period >= 4 && phase < period {
            Some((Era::Mortal(period as u64, phase as u64), pos + 2))
        } else {
            None
        }
    }
}

/// What a signed extrinsic carries from `pos` on: the signer, the signature, the
/// era, and the nonce and the tip as compact numbers.
pub open spec fn signature_at(bytes: Seq<u8>, pos: int) -> Option<(SignatureView, int)> {
    match address_at(bytes, pos) {
        None => None,
        Some((signer, after_signer)) => match multi_signature_at(bytes, after_signer) {
            None => None,
            Some((signature, after_signature)) => match era_at(bytes, after_signature) {
                None => None,
                Some((era, after_era)) => if after_era < bytes.len() && compact_value(
                    rest(bytes, after_era),
                    8,
                ) is Some {
                    let nonce = compact_value(rest(bytes, after_era), 8)->Some_0 as u64;
                    let after_nonce = after_era + compact_size(rest(bytes, after_era));
                    if after_nonce < bytes.len() && compact_value(rest(bytes, after_nonce), 8) is Some {
                        let tip = compact_value(rest(bytes, after_nonce), 8)->Some_0 as u64;
                        Some(
                            (
                                SignatureView {
                                    signer,
                                    signature,
                                    era: Some(era),
                                    nonce: Some(nonce),
                                    tip: Some(tip),
                                },
                                after_nonce + compact_size(rest(bytes, after_nonce)),
                            ),
                        )
                    } else {
                        None
                    }
                } else {
                    None
                },
            },
        },
    }
}

/// Reads the address at `pos`.
fn read_address(bytes: &[u8], pos: usize) -> (read: Option<(MultiAddress, usize)>)
    ensures
        match read {
            Some((address, next)) => address_at(bytes@, pos as int) == Some(
                (address@, next as int),
            ) && next <= bytes@.len(),
            None => address_at(bytes@, pos as int) is None,
        },
{
    let kind = match read_u8(bytes, pos) {
        Some((kind, _)) => kind,
        None => {
            return None;
        },
    };
    if kind == 0 {
        match read_account(bytes, pos + 1) {
            Some((id, next)) => Some((MultiAddress::Id(id), next)),
            None => None,
        }
    } else if kind == 1 {
        match read_compact_u32(bytes, pos + 1) {
            Some((index, next)) => Some((MultiAddress::Index(index), next)),
            None => None,
        }
    } else if kind == 2 {
        match read_compact_u32(bytes, pos + 1) {
            Some((length, start)) => match read_bytes(bytes, start, length as usize) {
                Some((raw, next)) => Some((MultiAddress::Raw(raw), next)),
                None => None,
            },
            None => None,
        }
    } else if kind == 3 {
        match read_account(bytes, pos + 1) {
            Some((id, next)) => Some((MultiAddress::Address32(id), next)),
            None => None,
        }
    } else if kind == 4 {
        match read_bytes(bytes, pos + 1, 20) {
            Some((raw, next)) => Some((MultiAddress::Address20(raw), next)),
            None => None,
        }
    } else {
        None
    }
}

/// Reads the signature at `pos`.
fn read_multi_signature(bytes: &[u8], pos: usize) -> (read: Option<(MultiSignature, usize)>)
    ensures
        match read {
            Some((signature, next)) => multi_signature_at(bytes@, pos as int) == Some(
                (signature@, next as int),
            ) && next <= bytes@.len(),
            None => multi_signature_at(bytes@, pos as int) is None,
        },
{
    let scheme = match read_u8(bytes, pos) {
        Some((scheme, _)) => scheme,
        None => {
            return None;
        },
    };
    if scheme == 0 {
        match read_bytes(bytes, pos + 1, 64) {
            Some((raw, next)) => Some((MultiSignature::Ed25519(raw), next)),
            None => None,
        }
    } else if scheme == 1 {
        match read_bytes(bytes, pos + 1, 64) {
            Some((raw, next)) => Some((MultiSignature::Sr25519(raw), next)),
            None => None,
        }
    } else if scheme == 2 {
        match read_bytes(bytes, pos + 1, 65) {
            Some((raw, next)) => Some((MultiSignature::Ecdsa(raw), next)),
            None => None,
        }
    } else {
        None
    }
}

/// Two to the power of `n`.
fn power_of_two(n: u8) -> (power: u64)
    requires
        n <= 16,
    ensures
        power == two_to(n as nat),
        power <= 65536,
{
    let mut power: u64 = 1;
    let mut i: u8 = 0;
    proof {
        lemma_two_to_bound(0);
    }
    while i < n
        invariant
            i <= n <= 16,
            power == two_to(i as nat),
            power <= 65536,
        decreases n - i,
    {
        proof {
            lemma_two_to_bound(i as nat + 1);
        }
        power = power * 2;
        i += 1;
    }
    power
}

proof fn lemma_two_to_bound(n: nat)
    requires
        n <= 16,
    ensures
        two_to(n) <= 65536,
        two_to(16) == 65536,
    decreases 16 - n,
{
    reveal_with_fuel(two_to, 17);
    if n < 16 {
        lemma_two_to_bound(n + 1);
    }
}

/// Reads the era at `pos`.
fn read_era(bytes: &[u8], pos: usize) -> (read: Option<(Era, usize)>)
    ensures
        match read {
            Some((era, next)) => era_at(bytes@, pos as int) == Some((era, next as int)) && next
                <= bytes@.len(),
            None => era_at(bytes@, pos as int) is None,
        },
{
    let first = match read_u8(bytes, pos) {
        Some((first, _)) => first,
        None => {
            return None;
        },
    };
    if first == 0 {
        return Some((Era::Immortal, pos + 1));
    }
    let second = match read_u8(bytes, pos + 1) {
        Some((second, _)) => second,
        None => {
            return None;
        },
    };
    let encoded: u64 = first as u64 + 256 * (second as u64);
    let period: u64 = 2 * power_of_two((encoded % 16) as u8);
    let step: u64 = if period / 4096 >= 1 {
        period / 4096
    } else {
        1
    };
    assert((encoded / 16) * step <= 4096 * 32) by (nonlinear_arith)
        requires
            encoded / 16 < 4096,
            step <= 32,
    ;
    let phase: u64 = (encoded / 16) * step;
    if period >= 4 && phase < period {
        Some((Era::Mortal(period, phase), pos + 2))
    } else {
        None
    }
}

/// Reads what a signed extrinsic carries from `pos` on.
pub fn read_signature(bytes: &[u8], pos: usize) -> (read: Option<(Signature, usize)>)
    ensures
        match read {
            Some((signature, next)) => signature_at(bytes@, pos as int) == Some(
                (signature@, next as int),
            ) && next <= bytes@.len(),
            None => signature_at(bytes@, pos as int) is None,
        },
{
    let (signer, after_signer) = match read_address(bytes, pos) {
        Some(read) => read,
        None => {
            return None;
        },
    };
    let (signature, after_signature) = match read_multi_signature(bytes, after_signer) {
        Some(read) => read,
        None => {
            return None;
        },
    };
    let (era, after_era) = match read_era(bytes, after_signature) {
        Some(read) => read,
        None => {
            return None;
        },
    };
    let (nonce, after_nonce) = match read_compact_u64(bytes, after_era) {
        Some(read) => read,
        None => {
            return None;
        },
    };
    let (tip, after_tip) = match read_compact_u64(bytes, after_nonce) {
        Some(read) => read,
        None => {
            return None;
        },
    };
    Some(
        (
            Signature { signer, signature, era: Some(era), nonce: Some(nonce), tip: Some(tip) },
            after_tip,
        ),
    )
}

} // verus!

verus! {

/// The call that sets the time of a block.
#[derive(Debug, PartialEq, Eq)]
pub enum Timestamp {
    SetMoment { version: u8, signature: Option<Signature>, timestamp: u64 },
}

/// An extrinsic: one that is told apart, or any other with the names of its
/// module and its call.
#[derive(Debug, PartialEq, Eq)]
pub enum SubstrateExtrinsic {
    Timestamp(Timestamp),
    Other { module_name: String, call_name: String, version: u8, signature: Option<Signature> },
}

/// Mathematical model of a [`SubstrateExtrinsic`].
pub enum ExtrinsicView {
    TimestampSet { version: u8, signature: Option<SignatureView>, timestamp: u64 },
    Other {
        module_name: Seq<char>,
        call_name: Seq<char>,
        version: u8,
        signature: Option<SignatureView>,
    },
}

/// The model of an optional signature.
pub open spec fn signature_view(signature: Option<Signature>) -> Option<SignatureView> {
    match signature {
        Some(signature) => Some(signature@),
        None => None,
    }
}

impl View for SubstrateExtrinsic {
    type V = ExtrinsicView;

    open spec fn view(&self) -> ExtrinsicView {
        match self {
            SubstrateExtrinsic::Timestamp(Timestamp::SetMoment { version, signature, timestamp }) => ExtrinsicView::TimestampSet {
                version: *version,
                signature: signature_view(*signature),
                timestamp: *timestamp,
            },
            SubstrateExtrinsic::Other { module_name, call_name, version, signature } => ExtrinsicView::Other {
                module_name: module_name@,
                call_name: call_name@,
                version: *version,
                signature: signature_view(*signature),
            },
        }
    }
}

/// Why bytes could not be read as an extrinsic.
#[derive(Debug, PartialEq, Eq)]
pub enum DecodeError {
    /// The text is not hexadecimal.
    InvalidHex,
    /// The bytes end before the extrinsic does.
    Truncated,
    /// What a signed extrinsic carries does not read.
    MalformedSignature,
    /// The metadata has no module of that index.
    UnknownModule(u8),
    /// The module has no call of that index.
    UnknownCall(u8),
    /// An argument of the call does not read.
    Argument(ArgumentDecodeError),
}

/// Mathematical model of a [`DecodeError`].
pub enum ExtrinsicFailure {
    InvalidHex,
    Truncated,
    MalformedSignature,
    UnknownModule(u8),
    UnknownCall(u8),
    Argument(DecodeFailure),
}

impl View for DecodeError {
    type V = ExtrinsicFailure;

    open spec fn view(&self) -> ExtrinsicFailure {
        match self {
            DecodeError::InvalidHex => ExtrinsicFailure::InvalidHex,
            DecodeError::Truncated => ExtrinsicFailure::Truncated,
            DecodeError::MalformedSignature => ExtrinsicFailure::MalformedSignature,
            DecodeError::UnknownModule(index) => ExtrinsicFailure::UnknownModule(*index),
            DecodeError::UnknownCall(index) => ExtrinsicFailure::UnknownCall(*index),
            DecodeError::Argument(error) => ExtrinsicFailure::Argument(error@),
        }
    }
}

/// The time that the first argument of a call gives, if it is a moment.
pub open spec fn moment_of(arguments: Seq<ArgumentView>) -> Option<u64> {
    if arguments.len() == 0 {
        None
    } else {
        match arguments[0] {
            ArgumentView::Primitive(ArgumentPrimitive::Moment(moment)) => Some(moment),
            ArgumentView::Primitive(ArgumentPrimitive::CompactU64(moment)) => Some(moment),
            _ => None,
        }
    }
}

/// The version bit of the first byte of an extrinsic.
pub open spec fn version_of(first: u8) -> u8 {
    first & 0b0000_0100u8
}

/// Whether the first byte of an extrinsic says that it is signed.
pub open spec fn is_signed(first: u8) -> bool {
    first & 0b1000_0000u8 == 0b1000_0000u8
}

/// What the bytes of an extrinsic denote, given the modules of the runtime: the
/// first byte tells whether it is signed, and its version; what a signed one
/// carries follows; then come the index of the module and that of the call. The
/// arguments of a call of `Timestamp` are read, and its call `set` with a moment
/// is told apart; any other extrinsic is known by the names of its module and
/// its call.
pub open spec fn extrinsic_of(modules: Seq<ModuleMetadata>, bytes: Seq<u8>) -> Result<
    ExtrinsicView,
    ExtrinsicFailure,
> {
    if bytes.len() == 0 {
        Err(ExtrinsicFailure::Truncated)
    } else {
        let signed = is_signed(bytes[0]);
        let carried = signature_at(bytes, 1);
        if signed && carried is None {
            Err(ExtrinsicFailure::MalformedSignature)
        } else {
            let signature = if signed {
                Some(carried->Some_0.0)
            } else {
                None
            };
            let at = if signed {
                carried->Some_0.1
            } else {
                1
            };
            if at + 2 > bytes.len() {
                Err(ExtrinsicFailure::Truncated)
            } else {
                match crate::metadata_read::index_position(modules, bytes[at], modules.len() as int) {
                    None => Err(ExtrinsicFailure::UnknownModule(bytes[at])),
                    Some(m) => if bytes[at + 1] as int >= modules[m].calls@.len() {
                        Err(ExtrinsicFailure::UnknownCall(bytes[at + 1]))
                    } else {
                        let call = modules[m].calls@[bytes[at + 1] as int];
                        let other = ExtrinsicView::Other {
                            module_name: modules[m].name@,
                            call_name: call.name@,
                            version: version_of(bytes[0]),
                            signature,
                        };
                        if modules[m].name@ == "Timestamp"@ {
                            match crate::argument::arguments_at(
                                views_of(call.arguments@),
                                bytes,
                                at + 2,
                            ) {
                                Err(failure) => Err(ExtrinsicFailure::Argument(failure)),
                                Ok((arguments, _)) => if call.name@ == "set"@ && moment_of(arguments) is Some {
                                    Ok(
                                        ExtrinsicView::TimestampSet {
                                            version: version_of(bytes[0]),
                                            signature,
                                            timestamp: moment_of(arguments)->Some_0,
                                        },
                                    )
                                } else {
                                    Ok(other)
                                },
                            }
                        } else {
                            Ok(other)
                        }
                    },
                }
            }
        }
    }
}

/// The time that the first argument of a call gives, if it is a moment.
fn first_moment(arguments: &Vec<Argument>) -> (moment: Option<u64>)
    ensures
        moment == moment_of(argument_views(arguments@)),
{
    if arguments.len() == 0 {
        return None;
    }
    assert(argument_views(arguments@)[0] == arguments@[0]@);
    match &arguments[0] {
        Argument::Primitive(value) => match **value {
            ArgumentPrimitive::Moment(moment) => Some(moment),
            ArgumentPrimitive::CompactU64(moment) => Some(moment),
            _ => None,
        },
        Argument::Vec(_) => {
            proof {
                crate::argument::lemma_list_view(arguments@[0]);
            }
            None
        },
        Argument::Tuple(_) => {
            proof {
                crate::argument::lemma_list_view(arguments@[0]);
            }
            None
        },
        Argument::Option(_) => None,
    }
}

impl Timestamp {
    /// The extrinsic of the call `name` of `Timestamp` with the given arguments,
    /// where it is one that is told apart.
    pub fn from(name: &str, version: u8, signature: Option<Signature>, arguments: &Vec<Argument>) -> (extrinsic:
        Result<SubstrateExtrinsic, Option<Signature>>)
        ensures
            match extrinsic {
                Ok(told) => name@ == "set"@ && moment_of(argument_views(arguments@)) is Some
                    && told@ == (ExtrinsicView::TimestampSet {
                    version,
                    signature: signature_view(signature),
                    timestamp: moment_of(argument_views(arguments@))->Some_0,
                }),
                Err(back) => !(name@ == "set"@ && moment_of(argument_views(arguments@)) is Some)
                    && back == signature,
            },
    {
        if String::from_str(name) == String::from_str("set") {
            match first_moment(arguments) {
                Some(timestamp) => {
                    return Ok(
                        SubstrateExtrinsic::Timestamp(
                            Timestamp::SetMoment { version, signature, timestamp },
                        ),
                    );
                },
                None => {},
            }
        }
        Err(signature)
    }
}

impl SubstrateExtrinsic {
    /// Reads an extrinsic from its bytes, with the metadata of the runtime.
    pub fn decode_extrinsic(metadata: &Metadata, bytes: &[u8]) -> (result: Result<
        SubstrateExtrinsic,
        DecodeError,
    >)
        ensures
            match extrinsic_of(metadata.modules@, bytes@) {
                Ok(extrinsic) => result matches Ok(read) && read@ == extrinsic,
                Err(failure) => result matches Err(error) && error@ == failure,
            },
    {
        let first = match read_u8(bytes, 0) {
            Some((first, _)) => first,
            None => {
                return Err(DecodeError::Truncated);
            },
        };
        let signed = (first & 0b1000_0000u8) == 0b1000_0000u8;
        let version = first & 0b0000_0100u8;
        let (signature, at) = if signed {
            match read_signature(bytes, 1) {
                Some((signature, next)) => (Some(signature), next),
                None => {
                    return Err(DecodeError::MalformedSignature);
                },
            }
        } else {
            (None, 1)
        };
        if bytes.len() - at < 2 {
            return Err(DecodeError::Truncated);
        }
        let module_index = bytes[at];
        let call_index = bytes[at + 1];
        let module = match metadata.module_by_index(module_index) {
            Some(module) => module,
            None => {
                return Err(DecodeError::UnknownModule(module_index));
            },
        };
        let call = match module.call(call_index) {
            Some(call) => call,
            None => {
                return Err(DecodeError::UnknownCall(call_index));
            },
        };
        let signature = if module.name == String::from_str("Timestamp") {
            let arguments = match crate::argument::decode_arguments(&call.arguments, bytes, at + 2) {
                Ok((arguments, _)) => arguments,
                Err(error) => {
                    return Err(DecodeError::Argument(error));
                },
            };
            match Timestamp::from(call.name.as_str(), version, signature, &arguments) {
                Ok(extrinsic) => {
                    return Ok(extrinsic);
                },
                Err(signature) => signature,
            }
        } else {
            signature
        };
        Ok(
            SubstrateExtrinsic::Other {
                module_name: module.name.clone(),
                call_name: call.name.clone(),
                version,
                signature,
            },
        )
    }
}

/// The bytes inside the bytes of an extrinsic as a block holds it: the length
/// of what follows as a compact number, then that many bytes.
pub open spec fn framed(bytes: Seq<u8>) -> Option<Seq<u8>> {
    if bytes.len() > 0 && compact_value(bytes, 4) is Some {
        let length = compact_value(bytes, 4)->Some_0 as int;
        let start = compact_size(bytes) as int;
        if start + length <= bytes.len() {
            Some(bytes.subrange(start, start + length))
        } else {
            None
        }
    } else {
        None
    }
}

/// What the text of an extrinsic as a block holds it denotes: hexadecimal
/// digits after an optional `0x`, that write framed bytes, that read as an
/// extrinsic.
#[verifier::opaque]
pub open spec fn extrinsic_of_text(modules: Seq<ModuleMetadata>, text: Seq<char>) -> Result<
    ExtrinsicView,
    ExtrinsicFailure,
> {
    if !is_hex_text(without_hex_prefix(text)) {
        Err(ExtrinsicFailure::InvalidHex)
    } else {
        match framed(hex_bytes(without_hex_prefix(text))) {
            None => Err(ExtrinsicFailure::Truncated),
            Some(inner) => extrinsic_of(modules, inner),
        }
    }
}

/// Whether the first `upto` texts all read, as the extrinsics `extrinsics`.
pub open spec fn all_read(
    modules: Seq<ModuleMetadata>,
    texts: Seq<String>,
    extrinsics: Seq<SubstrateExtrinsic>,
    upto: int,
) -> bool {
    &&& extrinsics.len() == upto
    &&& forall|i: int|
        0 <= i < upto ==> extrinsic_of_text(modules, texts[i]@) == Ok::<
            ExtrinsicView,
            ExtrinsicFailure,
        >((#[trigger] extrinsics[i])@)
}

impl SubstrateExtrinsic {
    /// Reads one extrinsic from its text as a block holds it.
    pub fn decode_extrinsic_text(metadata: &Metadata, text: &str) -> (result: Result<
        SubstrateExtrinsic,
        DecodeError,
    >)
        ensures
            match extrinsic_of_text(metadata.modules@, text@) {
                Ok(extrinsic) => result matches Ok(read) && read@ == extrinsic,
                Err(failure) => result matches Err(error) && error@ == failure,
            },
    {
        reveal(extrinsic_of_text);
        let raw = match decode_hex(text) {
            Some(raw) => raw,
            None => {
                return Err(DecodeError::InvalidHex);
            },
        };
        assert(rest(raw@, 0) =~= raw@);
        let (length, start) = match read_compact_u32(raw.as_slice(), 0) {
            Some(read) => read,
            None => {
                return Err(DecodeError::Truncated);
            },
        };
        match read_bytes(raw.as_slice(), start, length as usize) {
            Some((inner, _)) => SubstrateExtrinsic::decode_extrinsic(metadata, inner.as_slice()),
            None => Err(DecodeError::Truncated),
        }
    }

    /// Reads the extrinsics of a block, in their order, up to the first that
    /// does not read.
    pub fn decode_extrinsics(metadata: &Metadata, extrinsics: &Vec<String>) -> (result: Result<
        Vec<SubstrateExtrinsic>,
        DecodeError,
    >)
        ensures
            match result {
                Ok(read) => all_read(metadata.modules@, extrinsics@, read@, extrinsics@.len() as int),
                Err(error) => exists|i: int|
                    0 <= i < extrinsics@.len() && extrinsic_of_text(
                        metadata.modules@,
                        #[trigger] extrinsics@[i]@,
                    ) == Err::<ExtrinsicView, ExtrinsicFailure>(error@) && forall|j: int|
                        0 <= j < i ==> extrinsic_of_text(
                            metadata.modules@,
                            #[trigger] extrinsics@[j]@,
                        ) is Ok,
            },
    {
        let mut read: Vec<SubstrateExtrinsic> = Vec::new();
        let mut i: usize = 0;
        while i < extrinsics.len()
            invariant
                i <= extrinsics@.len(),
                all_read(metadata.modules@, extrinsics@, read@, i as int),
            decreases extrinsics@.len() - i,
        {
            match SubstrateExtrinsic::decode_extrinsic_text(metadata, extrinsics[i].as_str()) {
                Ok(extrinsic) => {
                    read.push(extrinsic);
                },
                Err(error) => {
                    assert(extrinsic_of_text(metadata.modules@, extrinsics@[i as int]@) == Err::<
                        ExtrinsicView,
                        ExtrinsicFailure,
                    >(error@));
                    assert forall|j: int| 0 <= j < i implies extrinsic_of_text(
                        metadata.modules@,
                        #[trigger] extrinsics@[j]@,
                    ) is Ok by {
                        assert(extrinsic_of_text(metadata.modules@, extrinsics@[j]@) == Ok::<
                            ExtrinsicView,
                            ExtrinsicFailure,
                        >(read@[j]@));
                    }
                    return Err(error);
                },
            }
            i += 1;
        }
        Ok(read)
    }
}

} // verus!
