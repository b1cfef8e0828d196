//! Arguments of calls and events, read from their SCALE bytes by the shapes
//! that the metadata gives them.
use crate::account::AccountId;
use crate::argument_meta::{views_of, ArgumentMeta, ArgumentMetaView};
use crate::chain_types::{account_at, read_account};
use crate::chain_values::{
    account_vote_at, dispatch_error_at, dispatch_info_at, dispatch_outcome_at, preferences_at,
    read_account_vote, read_dispatch_error, read_dispatch_info, read_dispatch_outcome,
    read_preferences, read_reward_destination, read_tally, read_timepoint, read_vote_threshold,
    reward_destination_at, tally_at, timepoint_at, vote_threshold_at, DispatchError,
    DispatchInfo, DispatchOutcome, Tally, Timepoint,
};
use crate::event::{AccountVote, VoteThreshold};
use crate::validator::{RewardDestination, ValidatorPreferences};
use crate::scale::{
    compact_size, compact_value, fixed_value, read_compact_u128, read_compact_u32, read_compact_u64,
    read_u128, read_u16, read_u32, read_u64, read_u8, rest,
};
use vstd::prelude::*;
use vstd::string::*;

verus! {

/// How the value of a primitive is written.
#[derive(Clone, Copy, Debug, PartialEq, Eq, Structural)]
pub enum PrimitiveKind {
    I8,
    I16,
    I32,
    I64,
    I128,
    U8,
    U16,
    U32,
    U64,
    U128,
    Bool,
    CompactU32,
    CompactU64,
    CompactU128,
    AccountId,
    Hash,
    Balance,
    Moment,
    DispatchInfo,
    DispatchError,
    DispatchResult,
    ValidatorPreferences,
    VoteThreshold,
    AccountVote,
    RewardDestination,
    Tally,
    Timepoint,
}

/// The table of the primitives that are understood: how the primitive of each
/// name is written. A name that is not in the table is not understood.
pub open spec fn primitive_kind(name: Seq<char>) -> Option<PrimitiveKind> {
    if name == "i8"@ {
        Some(PrimitiveKind::I8)
    } else if name == "i16"@ {
        Some(PrimitiveKind::I16)
    } else if name == "i32"@ {
        Some(PrimitiveKind::I32)
    } else if name == "i64"@ {
        Some(PrimitiveKind::I64)
    } else if name == "i128"@ {
        Some(PrimitiveKind::I128)
    } else if name == "u8"@ {
        Some(PrimitiveKind::U8)
    } else if name == "u16"@ {
        Some(PrimitiveKind::U16)
    } else if name == "u32"@ {
        Some(PrimitiveKind::U32)
    } else if name == "u64"@ {
        Some(PrimitiveKind::U64)
    } else if name == "u128"@ {
        Some(PrimitiveKind::U128)
    } else if name == "bool"@ {
        Some(PrimitiveKind::Bool)
    } else if name == "Compact<u32>"@ {
        Some(PrimitiveKind::CompactU32)
    } else if name == "Compact<u64>"@ {
        Some(PrimitiveKind::CompactU64)
    } else if name == "Compact<u128>"@ {
        Some(PrimitiveKind::CompactU128)
    } else if name == "Compact<Balance>"@ {
        Some(PrimitiveKind::CompactU128)
    } else if name == "Compact<BalanceOf<T>>"@ {
        Some(PrimitiveKind::CompactU128)
    } else if name == "Compact<T::Balance>"@ {
        Some(PrimitiveKind::CompactU128)
    } else if name == "Compact<EraIndex>"@ {
        Some(PrimitiveKind::CompactU32)
    } else if name == "Compact<ReferendumIndex>"@ {
        Some(PrimitiveKind::CompactU32)
    } else if name == "Compact<PropIndex>"@ {
        Some(PrimitiveKind::CompactU32)
    } else if name == "Compact<T::BlockNumber>"@ {
        Some(PrimitiveKind::CompactU32)
    } else if name == "Compact<Moment>"@ {
        Some(PrimitiveKind::CompactU64)
    } else if name == "Compact<T::Moment>"@ {
        Some(PrimitiveKind::CompactU64)
    } else if name == "AccountId"@ {
        Some(PrimitiveKind::AccountId)
    } else if name == "T::AccountId"@ {
        Some(PrimitiveKind::AccountId)
    } else if name == "AuthorityId"@ {
        Some(PrimitiveKind::AccountId)
    } else if name == "Hash"@ {
        Some(PrimitiveKind::Hash)
    } else if name == "T::Hash"@ {
        Some(PrimitiveKind::Hash)
    } else if name == "H256"@ {
        Some(PrimitiveKind::Hash)
    } else if name == "Balance"@ {
        Some(PrimitiveKind::Balance)
    } else if name == "BalanceOf<T>"@ {
        Some(PrimitiveKind::Balance)
    } else if name == "T::Balance"@ {
        Some(PrimitiveKind::Balance)
    } else if name == "Moment"@ {
        Some(PrimitiveKind::Moment)
    } else if name == "T::Moment"@ {
        Some(PrimitiveKind::Moment)
    } else if name == "BlockNumber"@ {
        Some(PrimitiveKind::U32)
    } else if name == "T::BlockNumber"@ {
        Some(PrimitiveKind::U32)
    } else if name == "EraIndex"@ {
        Some(PrimitiveKind::U32)
    } else if name == "SessionIndex"@ {
        Some(PrimitiveKind::U32)
    } else if name == "ReferendumIndex"@ {
        Some(PrimitiveKind::U32)
    } else if name == "PropIndex"@ {
        Some(PrimitiveKind::U32)
    } else if name == "ProposalIndex"@ {
        Some(PrimitiveKind::U32)
    } else if name == "RegistrarIndex"@ {
        Some(PrimitiveKind::U32)
    } else if name == "MemberCount"@ {
        Some(PrimitiveKind::U32)
    } else if name == "AccountIndex"@ {
        Some(PrimitiveKind::U32)
    } else if name == "AuthorityIndex"@ {
        Some(PrimitiveKind::U32)
    } else if name == "ParaId"@ {
        Some(PrimitiveKind::U32)
    } else if name == "Perbill"@ {
        Some(PrimitiveKind::U32)
    } else if name == "Weight"@ {
        Some(PrimitiveKind::U64)
    } else if name == "DispatchInfo"@ {
        Some(PrimitiveKind::DispatchInfo)
    } else if name == "DispatchError"@ {
        Some(PrimitiveKind::DispatchError)
    } else if name == "DispatchResult"@ {
        Some(PrimitiveKind::DispatchResult)
    } else if name == "ValidatorPrefs"@ {
        Some(PrimitiveKind::ValidatorPreferences)
    } else if name == "ValidatorPreferences"@ {
        Some(PrimitiveKind::ValidatorPreferences)
    } else if name == "VoteThreshold"@ {
        Some(PrimitiveKind::VoteThreshold)
    } else if name == "AccountVote"@ {
        Some(PrimitiveKind::AccountVote)
    } else if name == "AccountVote<Balance>"@ {
        Some(PrimitiveKind::AccountVote)
    } else if name == "AccountVote<BalanceOf<T>>"@ {
        Some(PrimitiveKind::AccountVote)
    } else if name == "RewardDestination"@ {
        Some(PrimitiveKind::RewardDestination)
    } else if name == "RewardDestination<AccountId>"@ {
        Some(PrimitiveKind::RewardDestination)
    } else if name == "RewardDestination<T::AccountId>"@ {
        Some(PrimitiveKind::RewardDestination)
    } else if name == "Tally"@ {
        Some(PrimitiveKind::Tally)
    } else if name == "Tally<Balance>"@ {
        Some(PrimitiveKind::Tally)
    } else if name == "Tally<BalanceOf<T>>"@ {
        Some(PrimitiveKind::Tally)
    } else if name == "Timepoint"@ {
        Some(PrimitiveKind::Timepoint)
    } else if name == "Timepoint<BlockNumber>"@ {
        Some(PrimitiveKind::Timepoint)
    } else if name == "Timepoint<T::BlockNumber>"@ {
        Some(PrimitiveKind::Timepoint)
    } else if name == "SpanIndex"@ {
        Some(PrimitiveKind::U32)
    } else if name == "CoreIndex"@ {
        Some(PrimitiveKind::U32)
    } else if name == "GroupIndex"@ {
        Some(PrimitiveKind::U32)
    } else if name == "BountyIndex"@ {
        Some(PrimitiveKind::U32)
    } else if name == "CallHash"@ {
        Some(PrimitiveKind::Hash)
    } else if name == "ValidatorId"@ {
        Some(PrimitiveKind::AccountId)
    } else {
        None
    }
}

/// Whether two texts are the same.
fn same_name(a: &str, b: &str) -> (same: bool)
    ensures
        same == (a@ == b@),
{
    String::from_str(a) == String::from_str(b)
}

/// Looks a primitive up in the table.
pub fn get_primitive_kind(name: &str) -> (kind: Option<PrimitiveKind>)
    ensures
        kind == primitive_kind(name@),
{
    if same_name(name, "i8") {
        Some(PrimitiveKind::I8)
    } else if same_name(name, "i16") {
        Some(PrimitiveKind::I16)
    } else if same_name(name, "i32") {
        Some(PrimitiveKind::I32)
    } else if same_name(name, "i64") {
        Some(PrimitiveKind::I64)
    } else if same_name(name, "i128") {
        Some(PrimitiveKind::I128)
    } else if same_name(name, "u8") {
        Some(PrimitiveKind::U8)
    } else if same_name(name, "u16") {
        Some(PrimitiveKind::U16)
    } else if same_name(name, "u32") {
        Some(PrimitiveKind::U32)
    } else if same_name(name, "u64") {
        Some(PrimitiveKind::U64)
    } else if same_name(name, "u128") {
        Some(PrimitiveKind::U128)
    } else if same_name(name, "bool") {
        Some(PrimitiveKind::Bool)
    } else if same_name(name, "Compact<u32>") {
        Some(PrimitiveKind::CompactU32)
    } else if same_name(name, "Compact<u64>") {
        Some(PrimitiveKind::CompactU64)
    } else if same_name(name, "Compact<u128>") {
        Some(PrimitiveKind::CompactU128)
    } else if same_name(name, "Compact<Balance>") {
        Some(PrimitiveKind::CompactU128)
    } else if same_name(name, "Compact<BalanceOf<T>>") {
        Some(PrimitiveKind::CompactU128)
    } else if same_name(name, "Compact<T::Balance>") {
        Some(PrimitiveKind::CompactU128)
    } else if same_name(name, "Compact<EraIndex>") {
        Some(PrimitiveKind::CompactU32)
    } else if same_name(name, "Compact<ReferendumIndex>") {
        Some(PrimitiveKind::CompactU32)
    } else if same_name(name, "Compact<PropIndex>") {
        Some(PrimitiveKind::CompactU32)
    } else if same_name(name, "Compact<T::BlockNumber>") {
        Some(PrimitiveKind::CompactU32)
    } else if same_name(name, "Compact<Moment>") {
        Some(PrimitiveKind::CompactU64)
    } else if same_name(name, "Compact<T::Moment>") {
        Some(PrimitiveKind::CompactU64)
    } else if same_name(name, "AccountId") {
        Some(PrimitiveKind::AccountId)
    } else if same_name(name, "T::AccountId") {
        Some(PrimitiveKind::AccountId)
    } else if same_name(name, "AuthorityId") {
        Some(PrimitiveKind::AccountId)
    } else if same_name(name, "Hash") {
        Some(PrimitiveKind::Hash)
    } else if same_name(name, "T::Hash") {
        Some(PrimitiveKind::Hash)
    } else if same_name(name, "H256") {
        Some(PrimitiveKind::Hash)
    } else if same_name(name, "Balance") {
        Some(PrimitiveKind::Balance)
    } else if same_name(name, "BalanceOf<T>") {
        Some(PrimitiveKind::Balance)
    } else if same_name(name, "T::Balance") {
        Some(PrimitiveKind::Balance)
    } else if same_name(name, "Moment") {
        Some(PrimitiveKind::Moment)
    } else if same_name(name, "T::Moment") {
        Some(PrimitiveKind::Moment)
    } else if same_name(name, "BlockNumber") {
        Some(PrimitiveKind::U32)
    } else if same_name(name, "T::BlockNumber") {
        Some(PrimitiveKind::U32)
    } else if same_name(name, "EraIndex") {
        Some(PrimitiveKind::U32)
    } else if same_name(name, "SessionIndex") {
        Some(PrimitiveKind::U32)
    } else if same_name(name, "ReferendumIndex") {
        Some(PrimitiveKind::U32)
    } else if same_name(name, "PropIndex") {
        Some(PrimitiveKind::U32)
    } else if same_name(name, "ProposalIndex") {
        Some(PrimitiveKind::U32)
    } else if same_name(name, "RegistrarIndex") {
        Some(PrimitiveKind::U32)
    } else if same_name(name, "MemberCount") {
        Some(PrimitiveKind::U32)
    } else if same_name(name, "AccountIndex") {
        Some(PrimitiveKind::U32)
    } else if same_name(name, "AuthorityIndex") {
        Some(PrimitiveKind::U32)
    } else if same_name(name, "ParaId") {
        Some(PrimitiveKind::U32)
    } else if same_name(name, "Perbill") {
        Some(PrimitiveKind::U32)
    } else if same_name(name, "Weight") {
        Some(PrimitiveKind::U64)
    } else if same_name(name, "DispatchInfo") {
        Some(PrimitiveKind::DispatchInfo)
    } else if same_name(name, "DispatchError") {
        Some(PrimitiveKind::DispatchError)
    } else if same_name(name, "DispatchResult") {
        Some(PrimitiveKind::DispatchResult)
    } else if same_name(name, "ValidatorPrefs") {
        Some(PrimitiveKind::ValidatorPreferences)
    } else if same_name(name, "ValidatorPreferences") {
        Some(PrimitiveKind::ValidatorPreferences)
    } else if same_name(name, "VoteThreshold") {
        Some(PrimitiveKind::VoteThreshold)
    } else if same_name(name, "AccountVote") {
        Some(PrimitiveKind::AccountVote)
    } else if same_name(name, "AccountVote<Balance>") {
        Some(PrimitiveKind::AccountVote)
    } else if same_name(name, "AccountVote<BalanceOf<T>>") {
        Some(PrimitiveKind::AccountVote)
    } else if same_name(name, "RewardDestination") {
        Some(PrimitiveKind::RewardDestination)
    } else if same_name(name, "RewardDestination<AccountId>") {
        Some(PrimitiveKind::RewardDestination)
    } else if same_name(name, "RewardDestination<T::AccountId>") {
        Some(PrimitiveKind::RewardDestination)
    } else if same_name(name, "Tally") {
        Some(PrimitiveKind::Tally)
    } else if same_name(name, "Tally<Balance>") {
        Some(PrimitiveKind::Tally)
    } else if same_name(name, "Tally<BalanceOf<T>>") {
        Some(PrimitiveKind::Tally)
    } else if same_name(name, "Timepoint") {
        Some(PrimitiveKind::Timepoint)
    } else if same_name(name, "Timepoint<BlockNumber>") {
        Some(PrimitiveKind::Timepoint)
    } else if same_name(name, "Timepoint<T::BlockNumber>") {
        Some(PrimitiveKind::Timepoint)
    } else if same_name(name, "SpanIndex") {
        Some(PrimitiveKind::U32)
    } else if same_name(name, "CoreIndex") {
        Some(PrimitiveKind::U32)
    } else if same_name(name, "GroupIndex") {
        Some(PrimitiveKind::U32)
    } else if same_name(name, "BountyIndex") {
        Some(PrimitiveKind::U32)
    } else if same_name(name, "CallHash") {
        Some(PrimitiveKind::Hash)
    } else if same_name(name, "ValidatorId") {
        Some(PrimitiveKind::AccountId)
    } else {
        None
    }
}

/// The value of a primitive.
#[derive(Clone, Copy, Debug, PartialEq, Eq)]
pub enum ArgumentPrimitive {
    I8(i8),
    I16(i16),
    I32(i32),
    I64(i64),
    I128(i128),
    U8(u8),
    U16(u16),
    U32(u32),
    U64(u64),
    U128(u128),
    Bool(bool),
    CompactU32(u32),
    CompactU64(u64),
    CompactU128(u128),
    AccountId(AccountId),
    Hash(AccountId),
    Balance(u128),
    Moment(u64),
    DispatchInfo(DispatchInfo),
    DispatchError(DispatchError),
    DispatchResult(DispatchOutcome),
    ValidatorPreferences(ValidatorPreferences),
    VoteThreshold(VoteThreshold),
    AccountVote(AccountVote),
    RewardDestination(RewardDestination),
    Tally(Tally),
    Timepoint(Timepoint),
}

/// A value read by its shape.
#[derive(Debug, PartialEq, Eq)]
pub enum Argument {
    Primitive(Box<ArgumentPrimitive>),
    Vec(Vec<Argument>),
    Option(Option<Box<Argument>>),
    Tuple(Vec<Argument>),
}

/// Mathematical model of an [`Argument`].
pub enum ArgumentView {
    Primitive(ArgumentPrimitive),
    Vec(Seq<ArgumentView>),
    Option(Option<Box<ArgumentView>>),
    Tuple(Seq<ArgumentView>),
}

impl View for Argument {
    type V = ArgumentView;

    open spec fn view(&self) -> ArgumentView
        decreases self, 0nat, 0nat,
    {
        match self {
            Argument::Primitive(value) => ArgumentView::Primitive(**value),
            Argument::Vec(items) => ArgumentView::Vec(item_views(items, items@.len() as int)),
            Argument::Option(value) => ArgumentView::Option(
                match value {
                    Some(inner) => Some(Box::new((**inner)@)),
                    None => None,
                },
            ),
            Argument::Tuple(items) => ArgumentView::Tuple(item_views(items, items@.len() as int)),
        }
    }
}

/// The models of the first `upto` items of a list.
pub open spec fn item_views(items: &Vec<Argument>, upto: int) -> Seq<ArgumentView>
    decreases items, 1nat, upto,
{
    if upto <= 0 || upto > items@.len() {
        Seq::empty()
    } else {
        item_views(items, upto - 1).push(items@[upto - 1]@)
    }
}

/// The models of a list of values.
pub open spec fn argument_views(items: Seq<Argument>) -> Seq<ArgumentView> {
    Seq::new(items.len(), |i: int| items[i]@)
}

/// Why bytes could not be read as a value.
#[derive(Debug, PartialEq, Eq)]
pub enum ArgumentDecodeError {
    /// The bytes end before the value does.
    Truncated,
    /// A compact integer is cut short, too wide, or not in its shortest form.
    MalformedCompact,
    /// The byte of a boolean is neither 0 nor 1.
    MalformedBool,
    /// The byte in front of an optional value is neither 0 nor 1.
    MalformedOption,
    /// The byte that tells the alternatives of a value apart stands for none of them.
    MalformedVariant,
    /// The table of primitives does not hold the name.
    UnknownPrimitiveType(String),
}

/// Mathematical model of an [`ArgumentDecodeError`].
pub enum DecodeFailure {
    Truncated,
    MalformedCompact,
    MalformedBool,
    MalformedOption,
    MalformedVariant,
    UnknownPrimitiveType(Seq<char>),
}

impl View for ArgumentDecodeError {
    type V = DecodeFailure;

    open spec fn view(&self) -> DecodeFailure {
        match self {
            ArgumentDecodeError::Truncated => DecodeFailure::Truncated,
            ArgumentDecodeError::MalformedCompact => DecodeFailure::MalformedCompact,
            ArgumentDecodeError::MalformedBool => DecodeFailure::MalformedBool,
            ArgumentDecodeError::MalformedOption => DecodeFailure::MalformedOption,
            ArgumentDecodeError::MalformedVariant => DecodeFailure::MalformedVariant,
            ArgumentDecodeError::UnknownPrimitiveType(name) => DecodeFailure::UnknownPrimitiveType(
                name@,
            ),
        }
    }
}

/// The signed number that `bits` bits write as the unsigned number `value`.
pub open spec fn signed(value: nat, half: nat) -> int {
    if value < half {
        value as int
    } else {
        value - 2 * half
    }
}

/// The fixed-width number of `width` bytes at `pos`, and where it ends.
pub open spec fn fixed_at(bytes: Seq<u8>, pos: int, width: int) -> Result<(nat, int), DecodeFailure> {
    if 0 <= pos <= bytes.len() && fixed_value(rest(bytes, pos), width) is Some {
        Ok((fixed_value(rest(bytes, pos), width)->Some_0, pos + width))
    } else {
        Err(DecodeFailure::Truncated)
    }
}

/// The compact number for a target of `width` bytes at `pos`, and where it ends.
pub open spec fn compact_at(bytes: Seq<u8>, pos: int, width: nat) -> Result<(nat, int), DecodeFailure> {
    if 0 <= pos < bytes.len() && compact_value(rest(bytes, pos), width) is Some {
        Ok(
            (
                compact_value(rest(bytes, pos), width)->Some_0,
                pos + compact_size(rest(bytes, pos)),
            ),
        )
    } else {
        Err(DecodeFailure::MalformedCompact)
    }
}

/// The value of a primitive of the given kind at `pos`, and where it ends.
pub open spec fn primitive_at(kind: PrimitiveKind, bytes: Seq<u8>, pos: int) -> Result<
    (ArgumentPrimitive, int),
    DecodeFailure,
> {
    match kind {
        PrimitiveKind::I8 => match fixed_at(bytes, pos, 1) {
            Ok((v, next)) => Ok((ArgumentPrimitive::I8(signed(v, 0x80) as i8), next)),
            Err(e) => Err(e),
        },
        PrimitiveKind::I16 => match fixed_at(bytes, pos, 2) {
            Ok((v, next)) => Ok((ArgumentPrimitive::I16(signed(v, 0x8000) as i16), next)),
            Err(e) => Err(e),
        },
        PrimitiveKind::I32 => match fixed_at(bytes, pos, 4) {
            Ok((v, next)) => Ok((ArgumentPrimitive::I32(signed(v, 0x8000_0000) as i32), next)),
            Err(e) => Err(e),
        },
        PrimitiveKind::I64 => match fixed_at(bytes, pos, 8) {
            Ok((v, next)) => Ok(
                (ArgumentPrimitive::I64(signed(v, 0x8000_0000_0000_0000) as i64), next),
            ),
            Err(e) => Err(e),
        },
        PrimitiveKind::I128 => match fixed_at(bytes, pos, 16) {
            Ok((v, next)) => Ok(
                (
                    ArgumentPrimitive::I128(
                        signed(v, 0x8000_0000_0000_0000_0000_0000_0000_0000) as i128,
                    ),
                    next,
                ),
            ),
            Err(e) => Err(e),
        },
        PrimitiveKind::U8 => match fixed_at(bytes, pos, 1) {
            Ok((v, next)) => Ok((ArgumentPrimitive::U8(v as u8), next)),
            Err(e) => Err(e),
        },
        PrimitiveKind::U16 => match fixed_at(bytes, pos, 2) {
            Ok((v, next)) => Ok((ArgumentPrimitive::U16(v as u16), next)),
            Err(e) => Err(e),
        },
        PrimitiveKind::U32 => match fixed_at(bytes, pos, 4) {
            Ok((v, next)) => Ok((ArgumentPrimitive::U32(v as u32), next)),
            Err(e) => Err(e),
        },
        PrimitiveKind::U64 => match fixed_at(bytes, pos, 8) {
            Ok((v, next)) => Ok((ArgumentPrimitive::U64(v as u64), next)),
            Err(e) => Err(e),
        },
        PrimitiveKind::U128 => match fixed_at(bytes, pos, 16) {
            Ok((v, next)) => Ok((ArgumentPrimitive::U128(v as u128), next)),
            Err(e) => Err(e),
        },
        PrimitiveKind::Bool => match fixed_at(bytes, pos, 1) {
            Ok((v, next)) => if v <= 1 {
                Ok((ArgumentPrimitive::Bool(v == 1), next))
            } else {
                Err(DecodeFailure::MalformedBool)
            },
            Err(e) => Err(e),
        },
        PrimitiveKind::CompactU32 => match compact_at(bytes, pos, 4) {
            Ok((v, next)) => Ok((ArgumentPrimitive::CompactU32(v as u32), next)),
            Err(e) => Err(e),
        },
        PrimitiveKind::CompactU64 => match compact_at(bytes, pos, 8) {
            Ok((v, next)) => Ok((ArgumentPrimitive::CompactU64(v as u64), next)),
            Err(e) => Err(e),
        },
        PrimitiveKind::CompactU128 => match compact_at(bytes, pos, 16) {
            Ok((v, next)) => Ok((ArgumentPrimitive::CompactU128(v as u128), next)),
            Err(e) => Err(e),
        },
        PrimitiveKind::AccountId => match account_at(bytes, pos) {
            Some(id) => Ok((ArgumentPrimitive::AccountId(id), pos + 32)),
            None => Err(DecodeFailure::Truncated),
        },
        PrimitiveKind::Hash => match account_at(bytes, pos) {
            Some(id) => Ok((ArgumentPrimitive::Hash(id), pos + 32)),
            None => Err(DecodeFailure::Truncated),
        },
        PrimitiveKind::Balance => match fixed_at(bytes, pos, 16) {
            Ok((v, next)) => Ok((ArgumentPrimitive::Balance(v as u128), next)),
            Err(e) => Err(e),
        },
        PrimitiveKind::Moment => match fixed_at(bytes, pos, 8) {
            Ok((v, next)) => Ok((ArgumentPrimitive::Moment(v as u64), next)),
            Err(e) => Err(e),
        },
        PrimitiveKind::DispatchInfo => match dispatch_info_at(bytes, pos) {
            Ok((v, next)) => Ok((ArgumentPrimitive::DispatchInfo(v), next)),
            Err(e) => Err(e),
        },
        PrimitiveKind::DispatchError => match dispatch_error_at(bytes, pos) {
            Ok((v, next)) => Ok((ArgumentPrimitive::DispatchError(v), next)),
            Err(e) => Err(e),
        },
        PrimitiveKind::DispatchResult => match dispatch_outcome_at(bytes, pos) {
            Ok((v, next)) => Ok((ArgumentPrimitive::DispatchResult(v), next)),
            Err(e) => Err(e),
        },
        PrimitiveKind::ValidatorPreferences => match preferences_at(bytes, pos) {
            Ok((v, next)) => Ok((ArgumentPrimitive::ValidatorPreferences(v), next)),
            Err(e) => Err(e),
        },
        PrimitiveKind::VoteThreshold => match vote_threshold_at(bytes, pos) {
            Ok((v, next)) => Ok((ArgumentPrimitive::VoteThreshold(v), next)),
            Err(e) => Err(e),
        },
        PrimitiveKind::AccountVote => match account_vote_at(bytes, pos) {
            Ok((v, next)) => Ok((ArgumentPrimitive::AccountVote(v), next)),
            Err(e) => Err(e),
        },
        PrimitiveKind::RewardDestination => match reward_destination_at(bytes, pos) {
            Ok((v, next)) => Ok((ArgumentPrimitive::RewardDestination(v), next)),
            Err(e) => Err(e),
        },
        PrimitiveKind::Tally => match tally_at(bytes, pos) {
            Ok((v, next)) => Ok((ArgumentPrimitive::Tally(v), next)),
            Err(e) => Err(e),
        },
        PrimitiveKind::Timepoint => match timepoint_at(bytes, pos) {
            Ok((v, next)) => Ok((ArgumentPrimitive::Timepoint(v), next)),
            Err(e) => Err(e),
        },
    }
}

/// What the bytes from `pos` on denote as a value of the shape `meta`, and where
/// the value ends; or why they denote none.
///
/// A list is its length as a compact number and then its items; an optional
/// value is one byte, 0 for none and 1 for some, and then the value; a tuple is
/// its members one after the other; a primitive is written as the table says.
pub open spec fn decode_at(meta: ArgumentMetaView, bytes: Seq<u8>, pos: int) -> Result<
    (ArgumentView, int),
    DecodeFailure,
>
    decreases meta, 0nat, 1nat,
{
    if pos < 0 || pos > bytes.len() {
        Err(DecodeFailure::Truncated)
    } else {
        decode_inside(meta, bytes, pos)
    }
}

/// [`decode_at`] for a position that lies inside the bytes or at their end.
pub open spec fn decode_inside(meta: ArgumentMetaView, bytes: Seq<u8>, pos: int) -> Result<
    (ArgumentView, int),
    DecodeFailure,
>
    decreases meta, 0nat, 0nat,
{
    match meta {
        ArgumentMetaView::Primitive(name) => match primitive_kind(name) {
            None => Err(DecodeFailure::UnknownPrimitiveType(name)),
            Some(kind) => match primitive_at(kind, bytes, pos) {
                Ok((value, next)) => Ok((ArgumentView::Primitive(value), next)),
                Err(e) => Err(e),
            },
        },
        ArgumentMetaView::Vec(inner) => match compact_at(bytes, pos, 4) {
            Err(e) => Err(e),
            Ok((count, next)) => match decode_repeated(*inner, bytes, next, count) {
                Ok((items, end)) => Ok((ArgumentView::Vec(items), end)),
                Err(e) => Err(e),
            },
        },
        ArgumentMetaView::Option(inner) => if pos < 0 || pos >= bytes.len() {
            Err(DecodeFailure::Truncated)
        } else if bytes[pos] == 0 {
            Ok((ArgumentView::Option(None), pos + 1))
        } else if bytes[pos] == 1 {
            match decode_at(*inner, bytes, pos + 1) {
                Ok((value, end)) => Ok((ArgumentView::Option(Some(Box::new(value))), end)),
                Err(e) => Err(e),
            }
        } else {
            Err(DecodeFailure::MalformedOption)
        },
        ArgumentMetaView::Tuple(members) => match decode_members(members, 0, bytes, pos) {
            Ok((items, end)) => Ok((ArgumentView::Tuple(items), end)),
            Err(e) => Err(e),
        },
    }
}

/// `count` values of the shape `meta`, one after the other.
pub open spec fn decode_repeated(meta: ArgumentMetaView, bytes: Seq<u8>, pos: int, count: nat) -> Result<
    (Seq<ArgumentView>, int),
    DecodeFailure,
>
    decreases meta, 1nat, count,
{
    if count == 0 {
        Ok((Seq::empty(), pos))
    } else {
        match decode_at(meta, bytes, pos) {
            Err(e) => Err(e),
            Ok((value, next)) => match decode_repeated(meta, bytes, next, (count - 1) as nat) {
                Ok((values, end)) => Ok((seq![value] + values, end)),
                Err(e) => Err(e),
            },
        }
    }
}

/// The values of the shapes `members[from..]`, one after the other.
pub open spec fn decode_members(members: Seq<ArgumentMetaView>, from: int, bytes: Seq<u8>, pos: int) -> Result<
    (Seq<ArgumentView>, int),
    DecodeFailure,
>
    decreases members, members.len() - from,
{
    if from < 0 || from >= members.len() {
        Ok((Seq::empty(), pos))
    } else {
        match decode_at(members[from], bytes, pos) {
            Err(e) => Err(e),
            Ok((value, next)) => match decode_members(members, from + 1, bytes, next) {
                Ok((values, end)) => Ok((seq![value] + values, end)),
                Err(e) => Err(e),
            },
        }
    }
}

} // verus!

verus! {

/// A result with `prefix` put in front of its values.
pub open spec fn after_prefix(
    prefix: Seq<ArgumentView>,
    result: Result<(Seq<ArgumentView>, int), DecodeFailure>,
) -> Result<(Seq<ArgumentView>, int), DecodeFailure> {
    match result {
        Ok((values, end)) => Ok((prefix + values, end)),
        Err(e) => Err(e),
    }
}

proof fn lemma_one_byte(bytes: Seq<u8>, pos: int)
    requires
        0 <= pos < bytes.len(),
    ensures
        fixed_at(bytes, pos, 1) == Ok::<(nat, int), DecodeFailure>((bytes[pos] as nat, pos + 1)),
{
    let one = rest(bytes, pos).subrange(0, 1);
    assert(one[0] == bytes[pos]);
    assert(one.drop_first() =~= Seq::<u8>::empty());
    reveal_with_fuel(crate::scale::le_value, 2);
}

/// Reads the value of a primitive of the given kind at `pos`.
fn decode_primitive(kind: PrimitiveKind, bytes: &[u8], pos: usize) -> (result: Result<
    (ArgumentPrimitive, usize),
    ArgumentDecodeError,
>)
    ensures
        match primitive_at(kind, bytes@, pos as int) {
            Ok((value, next)) => result == Ok::<(ArgumentPrimitive, usize), ArgumentDecodeError>(
                (value, next as usize),
            ) && next <= bytes@.len(),
            Err(failure) => result matches Err(error) && error@ == failure,
        },
{
    proof {
        if pos < bytes@.len() {
            lemma_one_byte(bytes@, pos as int);
        }
    }
    match kind {
        PrimitiveKind::I8 => match read_u8(bytes, pos) {
            Some((v, next)) => {
                let value: i8 = if v < 0x80 {
                    v as i8
                } else {
                    (v as i16 - 0x100) as i8
                };
                Ok((ArgumentPrimitive::I8(value), next))
            },
            None => Err(ArgumentDecodeError::Truncated),
        },
        PrimitiveKind::I16 => match read_u16(bytes, pos) {
            Some((v, next)) => {
                let value: i16 = if v < 0x8000 {
                    v as i16
                } else {
                    (v as i32 - 0x1_0000) as i16
                };
                Ok((ArgumentPrimitive::I16(value), next))
            },
            None => Err(ArgumentDecodeError::Truncated),
        },
        PrimitiveKind::I32 => match read_u32(bytes, pos) {
            Some((v, next)) => {
                let value: i32 = if v < 0x8000_0000 {
                    v as i32
                } else {
                    (v as i64 - 0x1_0000_0000) as i32
                };
                Ok((ArgumentPrimitive::I32(value), next))
            },
            None => Err(ArgumentDecodeError::Truncated),
        },
        PrimitiveKind::I64 => match read_u64(bytes, pos) {
            Some((v, next)) => {
                let value: i64 = if v < 0x8000_0000_0000_0000 {
                    v as i64
                } else {
                    (v as i128 - 0x1_0000_0000_0000_0000) as i64
                };
                Ok((ArgumentPrimitive::I64(value), next))
            },
            None => Err(ArgumentDecodeError::Truncated),
        },
        PrimitiveKind::I128 => match read_u128(bytes, pos) {
            Some((v, next)) => {
                let value: i128 = if v < 0x8000_0000_0000_0000_0000_0000_0000_0000 {
                    v as i128
                } else {
                    (v - 0x8000_0000_0000_0000_0000_0000_0000_0000) as i128 + i128::MIN
                };
                Ok((ArgumentPrimitive::I128(value), next))
            },
            None => Err(ArgumentDecodeError::Truncated),
        },
        PrimitiveKind::U8 => match read_u8(bytes, pos) {
            Some((v, next)) => Ok((ArgumentPrimitive::U8(v), next)),
            None => Err(ArgumentDecodeError::Truncated),
        },
        PrimitiveKind::U16 => match read_u16(bytes, pos) {
            Some((v, next)) => Ok((ArgumentPrimitive::U16(v), next)),
            None => Err(ArgumentDecodeError::Truncated),
        },
        PrimitiveKind::U32 => match read_u32(bytes, pos) {
            Some((v, next)) => Ok((ArgumentPrimitive::U32(v), next)),
            None => Err(ArgumentDecodeError::Truncated),
        },
        PrimitiveKind::U64 => match read_u64(bytes, pos) {
            Some((v, next)) => Ok((ArgumentPrimitive::U64(v), next)),
            None => Err(ArgumentDecodeError::Truncated),
        },
        PrimitiveKind::U128 => match read_u128(bytes, pos) {
            Some((v, next)) => Ok((ArgumentPrimitive::U128(v), next)),
            None => Err(ArgumentDecodeError::Truncated),
        },
        PrimitiveKind::Bool => match read_u8(bytes, pos) {
            Some((v, next)) => if v <= 1 {
                Ok((ArgumentPrimitive::Bool(v == 1), next))
            } else {
                Err(ArgumentDecodeError::MalformedBool)
            },
            None => Err(ArgumentDecodeError::Truncated),
        },
        PrimitiveKind::CompactU32 => match read_compact_u32(bytes, pos) {
            Some((v, next)) => Ok((ArgumentPrimitive::CompactU32(v), next)),
            None => Err(ArgumentDecodeError::MalformedCompact),
        },
        PrimitiveKind::CompactU64 => match read_compact_u64(bytes, pos) {
            Some((v, next)) => Ok((ArgumentPrimitive::CompactU64(v), next)),
            None => Err(ArgumentDecodeError::MalformedCompact),
        },
        PrimitiveKind::CompactU128 => match read_compact_u128(bytes, pos) {
            Some((v, next)) => Ok((ArgumentPrimitive::CompactU128(v), next)),
            None => Err(ArgumentDecodeError::MalformedCompact),
        },
        PrimitiveKind::AccountId => match read_account(bytes, pos) {
            Some((id, next)) => Ok((ArgumentPrimitive::AccountId(id), next)),
            None => Err(ArgumentDecodeError::Truncated),
        },
        PrimitiveKind::Hash => match read_account(bytes, pos) {
            Some((id, next)) => Ok((ArgumentPrimitive::Hash(id), next)),
            None => Err(ArgumentDecodeError::Truncated),
        },
        PrimitiveKind::Balance => match read_u128(bytes, pos) {
            Some((v, next)) => Ok((ArgumentPrimitive::Balance(v), next)),
            None => Err(ArgumentDecodeError::Truncated),
        },
        PrimitiveKind::Moment => match read_u64(bytes, pos) {
            Some((v, next)) => Ok((ArgumentPrimitive::Moment(v), next)),
            None => Err(ArgumentDecodeError::Truncated),
        },
        PrimitiveKind::DispatchInfo => match read_dispatch_info(bytes, pos) {
            Ok((v, next)) => Ok((ArgumentPrimitive::DispatchInfo(v), next)),
            Err(e) => Err(e),
        },
        PrimitiveKind::DispatchError => match read_dispatch_error(bytes, pos) {
            Ok((v, next)) => Ok((ArgumentPrimitive::DispatchError(v), next)),
            Err(e) => Err(e),
        },
        PrimitiveKind::DispatchResult => match read_dispatch_outcome(bytes, pos) {
            Ok((v, next)) => Ok((ArgumentPrimitive::DispatchResult(v), next)),
            Err(e) => Err(e),
        },
        PrimitiveKind::ValidatorPreferences => match read_preferences(bytes, pos) {
            Ok((v, next)) => Ok((ArgumentPrimitive::ValidatorPreferences(v), next)),
            Err(e) => Err(e),
        },
        PrimitiveKind::VoteThreshold => match read_vote_threshold(bytes, pos) {
            Ok((v, next)) => Ok((ArgumentPrimitive::VoteThreshold(v), next)),
            Err(e) => Err(e),
        },
        PrimitiveKind::AccountVote => match read_account_vote(bytes, pos) {
            Ok((v, next)) => Ok((ArgumentPrimitive::AccountVote(v), next)),
            Err(e) => Err(e),
        },
        PrimitiveKind::RewardDestination => match read_reward_destination(bytes, pos) {
            Ok((v, next)) => Ok((ArgumentPrimitive::RewardDestination(v), next)),
            Err(e) => Err(e),
        },
        PrimitiveKind::Tally => match read_tally(bytes, pos) {
            Ok((v, next)) => Ok((ArgumentPrimitive::Tally(v), next)),
            Err(e) => Err(e),
        },
        PrimitiveKind::Timepoint => match read_timepoint(bytes, pos) {
            Ok((v, next)) => Ok((ArgumentPrimitive::Timepoint(v), next)),
            Err(e) => Err(e),
        },
    }
}

/// The models of the first items of a list, one by one.
pub proof fn lemma_item_views(items: &Vec<Argument>, upto: int)
    requires
        0 <= upto <= items@.len(),
    ensures
        item_views(items, upto) == argument_views(items@.subrange(0, upto)),
    decreases upto,
{
    if upto > 0 {
        lemma_item_views(items, upto - 1);
        assert(argument_views(items@.subrange(0, upto)) =~= argument_views(
            items@.subrange(0, upto - 1),
        ).push(items@[upto - 1]@));
    } else {
        assert(argument_views(items@.subrange(0, 0)) =~= Seq::<ArgumentView>::empty());
    }
}

/// The model of a list or of a tuple is made of the models of its items.
pub proof fn lemma_list_view(value: Argument)
    ensures
        value matches Argument::Vec(items) ==> value@ == ArgumentView::Vec(argument_views(items@)),
        value matches Argument::Tuple(items) ==> value@ == ArgumentView::Tuple(
            argument_views(items@),
        ),
{
    match value {
        Argument::Vec(items) => {
            lemma_item_views(&items, items@.len() as int);
            assert(items@.subrange(0, items@.len() as int) =~= items@);
        },
        Argument::Tuple(items) => {
            lemma_item_views(&items, items@.len() as int);
            assert(items@.subrange(0, items@.len() as int) =~= items@);
        },
        _ => {},
    }
}

impl Argument {
    /// Reads, from `pos` on, a value of the shape `meta`; gives the value and the
    /// position after it, or the reason why the bytes hold none.
    pub fn decode(meta: &ArgumentMeta, bytes: &[u8], pos: usize) -> (result: Result<
        (Argument, usize),
        ArgumentDecodeError,
    >)
        ensures
            match decode_at(meta@, bytes@, pos as int) {
                Ok((value, next)) => result matches Ok((read, end)) && read@ == value && end == next
                    && next <= bytes@.len(),
                Err(failure) => result matches Err(error) && error@ == failure,
            },
        decreases meta, 0nat, 0nat,
    {
        if pos > bytes.len() {
            return Err(ArgumentDecodeError::Truncated);
        }
        match meta {
            ArgumentMeta::Primitive(name) => match get_primitive_kind(name.as_str()) {
                None => Err(ArgumentDecodeError::UnknownPrimitiveType(name.clone())),
                Some(kind) => match decode_primitive(kind, bytes, pos) {
                    Ok((value, next)) => {
                        Ok((Argument::Primitive(Box::new(value)), next))
                    },
                    Err(error) => Err(error),
                },
            },
            ArgumentMeta::Vec(inner) => match read_compact_u32(bytes, pos) {
                None => Err(ArgumentDecodeError::MalformedCompact),
                Some((count, next)) => match decode_items(inner, bytes, next, count) {
                    Ok((items, end)) => {
                        let value = Argument::Vec(items);
                        proof {
                            lemma_list_view(value);
                        }
                        Ok((value, end))
                    },
                    Err(error) => Err(error),
                },
            },
            ArgumentMeta::Option(inner) => match read_u8(bytes, pos) {
                None => Err(ArgumentDecodeError::Truncated),
                Some((flag, next)) => if flag == 0 {
                    Ok((Argument::Option(None), next))
                } else if flag == 1 {
                    match Argument::decode(inner, bytes, next) {
                        Ok((value, end)) => {
                            Ok((Argument::Option(Some(Box::new(value))), end))
                        },
                        Err(error) => Err(error),
                    }
                } else {
                    Err(ArgumentDecodeError::MalformedOption)
                },
            },
            ArgumentMeta::Tuple(members) => {
                assert(meta@->Tuple_0 =~= views_of(members@));
                match decode_tuple(members, bytes, pos) {
                    Ok((items, end)) => {
                        let value = Argument::Tuple(items);
                        proof {
                            lemma_list_view(value);
                        }
                        Ok((value, end))
                    },
                    Err(error) => Err(error),
                }
            },
        }
    }
}

/// Reads `count` values of the shape `meta`, one after the other.
fn decode_items(meta: &ArgumentMeta, bytes: &[u8], pos: usize, count: u32) -> (result: Result<
    (Vec<Argument>, usize),
    ArgumentDecodeError,
>)
    requires
        pos <= bytes@.len(),
    ensures
        match decode_repeated(meta@, bytes@, pos as int, count as nat) {
            Ok((values, next)) => result matches Ok((read, end)) && argument_views(read@) == values
                && end == next && next <= bytes@.len(),
            Err(failure) => result matches Err(error) && error@ == failure,
        },
    decreases meta, 1nat, count,
{
    let mut items: Vec<Argument> = Vec::new();
    let mut at: usize = pos;
    let mut k: u32 = 0;
    let ghost whole = decode_repeated(meta@, bytes@, pos as int, count as nat);
    assert(argument_views(items@) =~= Seq::<ArgumentView>::empty());
    assert(whole == after_prefix(argument_views(items@), whole)) by {
        match whole {
            Ok((values, end)) => {
                assert(Seq::<ArgumentView>::empty() + values =~= values);
            },
            Err(e) => {},
        }
    }
    while k < count
        invariant
            k <= count,
            at <= bytes@.len(),
            whole == decode_repeated(meta@, bytes@, pos as int, count as nat),
            whole == after_prefix(
                argument_views(items@),
                decode_repeated(meta@, bytes@, at as int, (count - k) as nat),
            ),
        decreases count - k,
    {
        let ghost before = argument_views(items@);
        let ghost remaining = decode_repeated(meta@, bytes@, at as int, (count - k) as nat);
        match Argument::decode(meta, bytes, at) {
            Err(error) => {
                return Err(error);
            },
            Ok((value, next)) => {
                let ghost view = value@;
                items.push(value);
                proof {
                    let later = decode_repeated(meta@, bytes@, next as int, (count - k - 1) as nat);
                    assert(remaining == after_prefix(seq![view], later));
                    assert(argument_views(items@) =~= before + seq![view]);
                    match later {
                        Ok((values, end)) => {
                            assert(before + (seq![view] + values) =~= (before + seq![view])
                                + values);
                        },
                        Err(e) => {},
                    }
                }
                at = next;
                k += 1;
            },
        }
    }
    proof {
        assert(argument_views(items@) + Seq::<ArgumentView>::empty() =~= argument_views(items@));
    }
    Ok((items, at))
}

/// Reads the arguments of a call or of an event, one after the other, from
/// `pos` on.
pub fn decode_arguments(shapes: &Vec<ArgumentMeta>, bytes: &[u8], pos: usize) -> (result: Result<
    (Vec<Argument>, usize),
    ArgumentDecodeError,
>)
    ensures
        match arguments_at(views_of(shapes@), bytes@, pos as int) {
            Ok((values, next)) => result matches Ok((read, end)) && argument_views(read@) == values
                && end == next && next <= bytes@.len(),
            Err(failure) => result matches Err(error) && error@ == failure,
        },
{
    if pos > bytes.len() {
        return Err(ArgumentDecodeError::Truncated);
    }
    decode_tuple(shapes, bytes, pos)
}

/// What the bytes from `pos` on denote as the arguments of the given shapes.
pub open spec fn arguments_at(shapes: Seq<ArgumentMetaView>, bytes: Seq<u8>, pos: int) -> Result<
    (Seq<ArgumentView>, int),
    DecodeFailure,
> {
    if pos < 0 || pos > bytes.len() {
        Err(DecodeFailure::Truncated)
    } else {
        decode_members(shapes, 0, bytes, pos)
    }
}

/// Reads the members of a tuple, one after the other.
fn decode_tuple(members: &Vec<ArgumentMeta>, bytes: &[u8], pos: usize) -> (result: Result<
    (Vec<Argument>, usize),
    ArgumentDecodeError,
>)
    requires
        pos <= bytes@.len(),
    ensures
        match decode_members(views_of(members@), 0, bytes@, pos as int) {
            Ok((values, next)) => result matches Ok((read, end)) && argument_views(read@) == values
                && end == next && next <= bytes@.len(),
            Err(failure) => result matches Err(error) && error@ == failure,
        },
    decreases members, members@.len(),
{
    let mut items: Vec<Argument> = Vec::new();
    let mut at: usize = pos;
    let mut k: usize = 0;
    let ghost metas = views_of(members@);
    let ghost whole = decode_members(metas, 0, bytes@, pos as int);
    assert(argument_views(items@) =~= Seq::<ArgumentView>::empty());
    assert(whole == after_prefix(argument_views(items@), whole)) by {
        match whole {
            Ok((values, end)) => {
                assert(Seq::<ArgumentView>::empty() + values =~= values);
            },
            Err(e) => {},
        }
    }
    while k < members.len()
        invariant
            k <= members@.len(),
            at <= bytes@.len(),
            metas == views_of(members@),
            whole == decode_members(metas, 0, bytes@, pos as int),
            whole == after_prefix(
                argument_views(items@),
                decode_members(metas, k as int, bytes@, at as int),
            ),
        decreases members@.len() - k,
    {
        let ghost before = argument_views(items@);
        let ghost remaining = decode_members(metas, k as int, bytes@, at as int);
        assert(decreases_to!(*members => members[k as int]));
        assert(metas[k as int] == members@[k as int]@);
        match Argument::decode(&members[k], bytes, at) {
            Err(error) => {
                return Err(error);
            },
            Ok((value, next)) => {
                let ghost view = value@;
                items.push(value);
                proof {
                    let later = decode_members(metas, k + 1, bytes@, next as int);
                    assert(remaining == after_prefix(seq![view], later));
                    assert(argument_views(items@) =~= before + seq![view]);
                    match later {
                        Ok((values, end)) => {
                            assert(before + (seq![view] + values) =~= (before + seq![view])
                                + values);
                        },
                        Err(e) => {},
                    }
                }
                at = next;
                k += 1;
            },
        }
    }
    proof {
        assert(argument_views(items@) + Seq::<ArgumentView>::empty() =~= argument_views(items@));
    }
    Ok((items, at))
}

} // verus!

verus! {

/// Whether the table of primitives holds every primitive name of a shape.
pub open spec fn all_known(meta: ArgumentMetaView) -> bool
    decreases meta,
{
    match meta {
        ArgumentMetaView::Primitive(name) => primitive_kind(name) is Some,
        ArgumentMetaView::Vec(inner) => all_known(*inner),
        ArgumentMetaView::Option(inner) => all_known(*inner),
        ArgumentMetaView::Tuple(members) => forall|i: int|
            0 <= i < members.len() ==> all_known(#[trigger] members[i]),
    }
}

/// Whether a failure is that of a primitive that is not understood.
pub open spec fn is_unknown(failure: DecodeFailure) -> bool {
    failure is UnknownPrimitiveType
}

/// Reading a value of a shape all of whose primitives are in the table never
/// fails for a primitive that is not understood: whatever the bytes, it yields
/// a value or fails for another reason.
pub proof fn lemma_known_shape_never_unknown(meta: ArgumentMetaView, bytes: Seq<u8>, pos: int)
    requires
        all_known(meta),
    ensures
        decode_at(meta, bytes, pos) matches Err(failure) ==> !is_unknown(failure),
    decreases meta, 0nat, 0nat,
{
    if 0 <= pos <= bytes.len() {
        match meta {
            ArgumentMetaView::Primitive(name) => {},
            ArgumentMetaView::Vec(inner) => {
                match compact_at(bytes, pos, 4) {
                    Ok((count, next)) => {
                        lemma_known_items_never_unknown(*inner, bytes, next, count);
                    },
                    Err(e) => {},
                }
            },
            ArgumentMetaView::Option(inner) => {
                lemma_known_shape_never_unknown(*inner, bytes, pos + 1);
            },
            ArgumentMetaView::Tuple(members) => {
                lemma_known_members_never_unknown(members, 0, bytes, pos);
            },
        }
    }
}

proof fn lemma_known_items_never_unknown(meta: ArgumentMetaView, bytes: Seq<u8>, pos: int, count: nat)
    requires
        all_known(meta),
    ensures
        decode_repeated(meta, bytes, pos, count) matches Err(failure) ==> !is_unknown(failure),
    decreases meta, 1nat, count,
{
    if count > 0 {
        lemma_known_shape_never_unknown(meta, bytes, pos);
        match decode_at(meta, bytes, pos) {
            Ok((value, next)) => {
                lemma_known_items_never_unknown(meta, bytes, next, (count - 1) as nat);
            },
            Err(e) => {},
        }
    }
}

proof fn lemma_known_members_never_unknown(
    members: Seq<ArgumentMetaView>,
    from: int,
    bytes: Seq<u8>,
    pos: int,
)
    requires
        forall|i: int| 0 <= i < members.len() ==> all_known(#[trigger] members[i]),
    ensures
        decode_members(members, from, bytes, pos) matches Err(failure) ==> !is_unknown(failure),
    decreases members, members.len() - from,
{
    if 0 <= from < members.len() {
        lemma_known_shape_never_unknown(members[from], bytes, pos);
        match decode_at(members[from], bytes, pos) {
            Ok((value, next)) => {
                lemma_known_members_never_unknown(members, from + 1, bytes, next);
            },
            Err(e) => {},
        }
    }
}

/// A primitive that the table does not hold is never read in silence: reading
/// it fails, and the failure names it.
pub proof fn lemma_unknown_primitive_fails(name: Seq<char>, bytes: Seq<u8>, pos: int)
    requires
        primitive_kind(name) is None,
        0 <= pos <= bytes.len(),
    ensures
        decode_at(ArgumentMetaView::Primitive(name), bytes, pos) == Err::<
            (ArgumentView, int),
            DecodeFailure,
        >(DecodeFailure::UnknownPrimitiveType(name)),
{
}

} // verus!
