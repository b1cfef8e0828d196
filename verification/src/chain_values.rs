//! Values of the runtime that one name of the metadata stands for as a whole:
//! what a dispatch cost and how it ended, votes and their tallies, the time of
//! a multisig operation, a validator's preferences and where its rewards go.
//! Each is read from its SCALE bytes at a position.

use crate::argument::{compact_at, fixed_at, ArgumentDecodeError, DecodeFailure};
use crate::chain_types::{account_at, read_account};
use crate::event::{AccountVote, Conviction, Vote, VoteThreshold};
use crate::network_status::Balance;
use crate::scale::{read_compact_u32, read_u128, read_u32, read_u64};
use crate::validator::{RewardDestination, ValidatorPreferences};
use vstd::prelude::*;

verus! {

/// The class of a dispatch.
#[derive(Clone, Copy, Debug, PartialEq, Eq, Structural)]
pub enum DispatchClass {
    Normal,
    Operational,
    Mandatory,
}

/// What a dispatch cost: its weight, its class, and whether a fee is paid for it.
#[derive(Clone, Copy, Debug, PartialEq, Eq, Structural)]
pub struct DispatchInfo {
    pub weight: u64,
    pub class: DispatchClass,
    pub pays_fee: bool,
}

/// Why a dispatch failed. A failure inside a module names the module and the
/// error by their indices; a token or an arithmetic failure carries the number
/// of its kind.
#[derive(Clone, Copy, Debug, PartialEq, Eq, Structural)]
pub enum DispatchError {
    Other,
    CannotLookup,
    BadOrigin,
    Module { index: u8, error: u8 },
    ConsumerRemaining,
    NoProviders,
    Token(u8),
    Arithmetic(u8),
}

/// How a dispatch ended.
#[derive(Clone, Copy, Debug, PartialEq, Eq, Structural)]
pub enum DispatchOutcome {
    Succeeded,
    Failed(DispatchError),
}

/// The count of a referendum: the balances for and against, and the turnout.
#[derive(Clone, Copy, Debug, PartialEq, Eq, Structural)]
pub struct Tally {
    pub ayes: Balance,
    pub nays: Balance,
    pub turnout: Balance,
}

/// The time of a multisig operation: the block, and the extrinsic in it.
#[derive(Clone, Copy, Debug, PartialEq, Eq, Structural)]
pub struct Timepoint {
    pub height: u32,
    pub index: u32,
}

/// The class that a byte stands for.
pub open spec fn class_of(byte: u8) -> Option<DispatchClass> {
    if byte == 0 {
        Some(DispatchClass::Normal)
    } else if byte == 1 {
        Some(DispatchClass::Operational)
    } else if byte == 2 {
        Some(DispatchClass::Mandatory)
    } else {
        None
    }
}

/// What a dispatch cost, at `pos`: the weight in eight bytes, one byte for the
/// class, and one byte that is 0 where a fee is paid and 1 where none is.
pub open spec fn dispatch_info_at(bytes: Seq<u8>, pos: int) -> Result<(DispatchInfo, int), DecodeFailure> {
    match fixed_at(bytes, pos, 8) {
        Err(failure) => Err(failure),
        Ok((weight, next)) => if next + 2 > bytes.len() {
            Err(DecodeFailure::Truncated)
        } else if class_of(bytes[next]) is None || bytes[next + 1] > 1 {
            Err(DecodeFailure::MalformedVariant)
        } else {
            Ok(
                (
                    DispatchInfo {
                        weight: weight as u64,
                        class: class_of(bytes[next])->Some_0,
                        pays_fee: bytes[next + 1] == 0,
                    },
                    next + 2,
                ),
            )
        },
    }
}

/// Reads what a dispatch cost.
pub fn read_dispatch_info(bytes: &[u8], pos: usize) -> (result: Result<
    (DispatchInfo, usize),
    ArgumentDecodeError,
>)
    ensures
        match dispatch_info_at(bytes@, pos as int) {
            Ok((value, next)) => result == Ok::<(DispatchInfo, usize), ArgumentDecodeError>(
                (value, next as usize),
            ) && next <= bytes@.len(),
            Err(failure) => result matches Err(error) && error@ == failure,
        },
{
    match read_u64(bytes, pos) {
        None => Err(ArgumentDecodeError::Truncated),
        Some((weight, next)) => {
            if bytes.len() - next < 2 {
                return Err(ArgumentDecodeError::Truncated);
            }
            let class = if bytes[next] == 0 {
                DispatchClass::Normal
            } else if bytes[next] == 1 {
                DispatchClass::Operational
            } else if bytes[next] == 2 {
                DispatchClass::Mandatory
            } else {
                return Err(ArgumentDecodeError::MalformedVariant);
            };
            if bytes[next + 1] > 1 {
                return Err(ArgumentDecodeError::MalformedVariant);
            }
            Ok((DispatchInfo { weight, class, pays_fee: bytes[next + 1] == 0 }, next + 2))
        },
    }
}

/// Why a dispatch failed, at `pos`: one byte for the kind; for a failure inside
/// a module the indices of the module and of the error follow, for a token or an
/// arithmetic failure the number of its kind.
pub open spec fn dispatch_error_at(bytes: Seq<u8>, pos: int) -> Result<(DispatchError, int), DecodeFailure> {
    if pos < 0 || pos >= bytes.len() {
        Err(DecodeFailure::Truncated)
    } else if bytes[pos] == 0 {
        Ok((DispatchError::Other, pos + 1))
    } else if bytes[pos] == 1 {
        Ok((DispatchError::CannotLookup, pos + 1))
    } else if bytes[pos] == 2 {
        Ok((DispatchError::BadOrigin, pos + 1))
    } else if bytes[pos] == 3 {
        if pos + 3 <= bytes.len() {
            Ok((DispatchError::Module { index: bytes[pos + 1], error: bytes[pos + 2] }, pos + 3))
        } else {
            Err(DecodeFailure::Truncated)
        }
    } else if bytes[pos] == 4 {
        Ok((DispatchError::ConsumerRemaining, pos + 1))
    } else if bytes[pos] == 5 {
        Ok((DispatchError::NoProviders, pos + 1))
    } else if bytes[pos] == 6 {
        if pos + 2 <= bytes.len() {
            Ok((DispatchError::Token(bytes[pos + 1]), pos + 2))
        } else {
            Err(DecodeFailure::Truncated)
        }
    } else if bytes[pos] == 7 {
        if pos + 2 <= bytes.len() {
            Ok((DispatchError::Arithmetic(bytes[pos + 1]), pos + 2))
        } else {
            Err(DecodeFailure::Truncated)
        }
    } else {
        Err(DecodeFailure::MalformedVariant)
    }
}

/// Reads why a dispatch failed.
pub fn read_dispatch_error(bytes: &[u8], pos: usize) -> (result: Result<
    (DispatchError, usize),
    ArgumentDecodeError,
>)
    ensures
        match dispatch_error_at(bytes@, pos as int) {
            Ok((value, next)) => result == Ok::<(DispatchError, usize), ArgumentDecodeError>(
                (value, next as usize),
            ) && next <= bytes@.len(),
            Err(failure) => result matches Err(error) && error@ == failure,
        },
{
    let n = bytes.len();
    if pos >= n {
        return Err(ArgumentDecodeError::Truncated);
    }
    let tag = bytes[pos];
    if tag == 0 {
        Ok((DispatchError::Other, pos + 1))
    } else if tag == 1 {
        Ok((DispatchError::CannotLookup, pos + 1))
    } else if tag == 2 {
        Ok((DispatchError::BadOrigin, pos + 1))
    } else if tag == 3 {
        if n - pos >= 3 {
            Ok((DispatchError::Module { index: bytes[pos + 1], error: bytes[pos + 2] }, pos + 3))
        } else {
            Err(ArgumentDecodeError::Truncated)
        }
    } else if tag == 4 {
        Ok((DispatchError::ConsumerRemaining, pos + 1))
    } else if tag == 5 {
        Ok((DispatchError::NoProviders, pos + 1))
    } else if tag == 6 {
        if n - pos >= 2 {
            Ok((DispatchError::Token(bytes[pos + 1]), pos + 2))
        } else {
            Err(ArgumentDecodeError::Truncated)
        }
    } else if tag == 7 {
        if n - pos >= 2 {
            Ok((DispatchError::Arithmetic(bytes[pos + 1]), pos + 2))
        } else {
            Err(ArgumentDecodeError::Truncated)
        }
    } else {
        Err(ArgumentDecodeError::MalformedVariant)
    }
}

/// How a dispatch ended, at `pos`: the byte 0 for success, or the byte 1 and
/// then why it failed.
pub open spec fn dispatch_outcome_at(bytes: Seq<u8>, pos: int) -> Result<
    (DispatchOutcome, int),
    DecodeFailure,
> {
    if pos < 0 || pos >= bytes.len() {
        Err(DecodeFailure::Truncated)
    } else if bytes[pos] == 0 {
        Ok((DispatchOutcome::Succeeded, pos + 1))
    } else if bytes[pos] == 1 {
        match dispatch_error_at(bytes, pos + 1) {
            Ok((error, next)) => Ok((DispatchOutcome::Failed(error), next)),
            Err(failure) => Err(failure),
        }
    } else {
        Err(DecodeFailure::MalformedVariant)
    }
}

/// Reads how a dispatch ended.
pub fn read_dispatch_outcome(bytes: &[u8], pos: usize) -> (result: Result<
    (DispatchOutcome, usize),
    ArgumentDecodeError,
>)
    ensures
        match dispatch_outcome_at(bytes@, pos as int) {
            Ok((value, next)) => result == Ok::<(DispatchOutcome, usize), ArgumentDecodeError>(
                (value, next as usize),
            ) && next <= bytes@.len(),
            Err(failure) => result matches Err(error) && error@ == failure,
        },
{
    if pos >= bytes.len() {
        return Err(ArgumentDecodeError::Truncated);
    }
    let tag = bytes[pos];
    if tag == 0 {
        Ok((DispatchOutcome::Succeeded, pos + 1))
    } else if tag == 1 {
        match read_dispatch_error(bytes, pos + 1) {
            Ok((error, next)) => Ok((DispatchOutcome::Failed(error), next)),
            Err(error) => Err(error),
        }
    } else {
        Err(ArgumentDecodeError::MalformedVariant)
    }
}

/// The threshold of a referendum, at `pos`: one byte, 0 for a super-majority to
/// approve, 1 for a super-majority against, 2 for a simple majority.
pub open spec fn vote_threshold_at(bytes: Seq<u8>, pos: int) -> Result<(VoteThreshold, int), DecodeFailure> {
    if pos < 0 || pos >= bytes.len() {
        Err(DecodeFailure::Truncated)
    } else if bytes[pos] == 0 {
        Ok((VoteThreshold::SuperMajorityApprove, pos + 1))
    } else if bytes[pos] == 1 {
        Ok((VoteThreshold::SuperMajorityAgainst, pos + 1))
    } else if bytes[pos] == 2 {
        Ok((VoteThreshold::SimpleMajority, pos + 1))
    } else {
        Err(DecodeFailure::MalformedVariant)
    }
}

/// Reads the threshold of a referendum.
pub fn read_vote_threshold(bytes: &[u8], pos: usize) -> (result: Result<
    (VoteThreshold, usize),
    ArgumentDecodeError,
>)
    ensures
        match vote_threshold_at(bytes@, pos as int) {
            Ok((value, next)) => result == Ok::<(VoteThreshold, usize), ArgumentDecodeError>(
                (value, next as usize),
            ) && next <= bytes@.len(),
            Err(failure) => result matches Err(error) && error@ == failure,
        },
{
    if pos >= bytes.len() {
        return Err(ArgumentDecodeError::Truncated);
    }
    let tag = bytes[pos];
    if tag == 0 {
        Ok((VoteThreshold::SuperMajorityApprove, pos + 1))
    } else if tag == 1 {
        Ok((VoteThreshold::SuperMajorityAgainst, pos + 1))
    } else if tag == 2 {
        Ok((VoteThreshold::SimpleMajority, pos + 1))
    } else {
        Err(ArgumentDecodeError::MalformedVariant)
    }
}

/// The conviction that a number stands for.
pub open spec fn conviction_of(number: int) -> Option<Conviction> {
    if number == 0 {
        Some(Conviction::Unlocked)
    } else if number == 1 {
        Some(Conviction::Locked1x)
    } else if number == 2 {
        Some(Conviction::Locked2x)
    } else if number == 3 {
        Some(Conviction::Locked3x)
    } else if number == 4 {
        Some(Conviction::Locked4x)
    } else if number == 5 {
        Some(Conviction::Locked5x)
    } else if number == 6 {
        Some(Conviction::Locked6x)
    } else {
        None
    }
}

/// The vote that a byte stands for: from 128 on it is a vote for, below it a
/// vote against; what is left of the byte is the number of the conviction.
pub open spec fn vote_of(byte: u8) -> Option<Vote> {
    let aye = byte >= 128;
    let number = if aye {
        byte - 128
    } else {
        byte as int
    };
    match conviction_of(number) {
        Some(conviction) => Some(Vote { aye, conviction }),
        None => None,
    }
}

/// Reads a vote from its byte.
pub fn read_vote(byte: u8) -> (vote: Option<Vote>)
    ensures
        vote == vote_of(byte),
{
    let aye = byte >= 128;
    let number: u8 = if aye {
        byte - 128
    } else {
        byte
    };
    let conviction = if number == 0 {
        Conviction::Unlocked
    } else if number == 1 {
        Conviction::Locked1x
    } else if number == 2 {
        Conviction::Locked2x
    } else if number == 3 {
        Conviction::Locked3x
    } else if number == 4 {
        Conviction::Locked4x
    } else if number == 5 {
        Conviction::Locked5x
    } else if number == 6 {
        Conviction::Locked6x
    } else {
        return None;
    };
    Some(Vote { aye, conviction })
}

/// The vote of an account, at `pos`: the byte 0, the byte of the vote and its
/// balance in sixteen bytes; or the byte 1 and the two balances of a split vote,
/// the one for first.
pub open spec fn account_vote_at(bytes: Seq<u8>, pos: int) -> Result<(AccountVote, int), DecodeFailure> {
    if pos < 0 || pos >= bytes.len() {
        Err(DecodeFailure::Truncated)
    } else if bytes[pos] == 0 {
        if pos + 1 >= bytes.len() {
            Err(DecodeFailure::Truncated)
        } else {
            match vote_of(bytes[pos + 1]) {
                None => Err(DecodeFailure::MalformedVariant),
                Some(vote) => match fixed_at(bytes, pos + 2, 16) {
                    Ok((balance, next)) => Ok(
                        (AccountVote::Standard { vote, balance: balance as u128 }, next),
                    ),
                    Err(failure) => Err(failure),
                },
            }
        }
    } else if bytes[pos] == 1 {
        match fixed_at(bytes, pos + 1, 16) {
            Err(failure) => Err(failure),
            Ok((aye, middle)) => match fixed_at(bytes, middle, 16) {
                Ok((nay, next)) => Ok(
                    (AccountVote::Split { aye: aye as u128, nay: nay as u128 }, next),
                ),
                Err(failure) => Err(failure),
            },
        }
    } else {
        Err(DecodeFailure::MalformedVariant)
    }
}

/// Reads the vote of an account.
pub fn read_account_vote(bytes: &[u8], pos: usize) -> (result: Result<
    (AccountVote, usize),
    ArgumentDecodeError,
>)
    ensures
        match account_vote_at(bytes@, pos as int) {
            Ok((value, next)) => result == Ok::<(AccountVote, usize), ArgumentDecodeError>(
                (value, next as usize),
            ) && next <= bytes@.len(),
            Err(failure) => result matches Err(error) && error@ == failure,
        },
{
    let n = bytes.len();
    if pos >= n {
        return Err(ArgumentDecodeError::Truncated);
    }
    let tag = bytes[pos];
    if tag == 0 {
        if n - pos < 2 {
            return Err(ArgumentDecodeError::Truncated);
        }
        match read_vote(bytes[pos + 1]) {
            None => Err(ArgumentDecodeError::MalformedVariant),
            Some(vote) => match read_u128(bytes, pos + 2) {
                Some((balance, next)) => Ok((AccountVote::Standard { vote, balance }, next)),
                None => Err(ArgumentDecodeError::Truncated),
            },
        }
    } else if tag == 1 {
        match read_u128(bytes, pos + 1) {
            None => Err(ArgumentDecodeError::Truncated),
            Some((aye, middle)) => match read_u128(bytes, middle) {
                Some((nay, next)) => Ok((AccountVote::Split { aye, nay }, next)),
                None => Err(ArgumentDecodeError::Truncated),
            },
        }
    } else {
        Err(ArgumentDecodeError::MalformedVariant)
    }
}

/// The count of a referendum, at `pos`: three balances of sixteen bytes, for,
/// against and the turnout.
pub open spec fn tally_at(bytes: Seq<u8>, pos: int) -> Result<(Tally, int), DecodeFailure> {
    match fixed_at(bytes, pos, 16) {
        Err(failure) => Err(failure),
        Ok((ayes, second)) => match fixed_at(bytes, second, 16) {
            Err(failure) => Err(failure),
            Ok((nays, third)) => match fixed_at(bytes, third, 16) {
                Err(failure) => Err(failure),
                Ok((turnout, next)) => Ok(
                    (
                        Tally {
                            ayes: ayes as u128,
                            nays: nays as u128,
                            turnout: turnout as u128,
                        },
                        next,
                    ),
                ),
            },
        },
    }
}

/// Reads the count of a referendum.
pub fn read_tally(bytes: &[u8], pos: usize) -> (result: Result<(Tally, usize), ArgumentDecodeError>)
    ensures
        match tally_at(bytes@, pos as int) {
            Ok((value, next)) => result == Ok::<(Tally, usize), ArgumentDecodeError>(
                (value, next as usize),
            ) && next <= bytes@.len(),
            Err(failure) => result matches Err(error) && error@ == failure,
        },
{
    let (ayes, second) = match read_u128(bytes, pos) {
        Some(read) => read,
        None => return Err(ArgumentDecodeError::Truncated),
    };
    let (nays, third) = match read_u128(bytes, second) {
        Some(read) => read,
        None => return Err(ArgumentDecodeError::Truncated),
    };
    match read_u128(bytes, third) {
        Some((turnout, next)) => Ok((Tally { ayes, nays, turnout }, next)),
        None => Err(ArgumentDecodeError::Truncated),
    }
}

/// The time of a multisig operation, at `pos`: the block's number and the
/// extrinsic's index, four bytes each.
pub open spec fn timepoint_at(bytes: Seq<u8>, pos: int) -> Result<(Timepoint, int), DecodeFailure> {
    match fixed_at(bytes, pos, 4) {
        Err(failure) => Err(failure),
        Ok((height, middle)) => match fixed_at(bytes, middle, 4) {
            Err(failure) => Err(failure),
            Ok((index, next)) => Ok(
                (Timepoint { height: height as u32, index: index as u32 }, next),
            ),
        },
    }
}

/// Reads the time of a multisig operation.
pub fn read_timepoint(bytes: &[u8], pos: usize) -> (result: Result<
    (Timepoint, usize),
    ArgumentDecodeError,
>)
    ensures
        match timepoint_at(bytes@, pos as int) {
            Ok((value, next)) => result == Ok::<(Timepoint, usize), ArgumentDecodeError>(
                (value, next as usize),
            ) && next <= bytes@.len(),
            Err(failure) => result matches Err(error) && error@ == failure,
        },
{
    match read_u32(bytes, pos) {
        None => Err(ArgumentDecodeError::Truncated),
        Some((height, middle)) => match read_u32(bytes, middle) {
            Some((index, next)) => Ok((Timepoint { height, index }, next)),
            None => Err(ArgumentDecodeError::Truncated),
        },
    }
}

/// A validator's preferences, at `pos`: the commission as a compact number of
/// parts per billion, then one byte, 0 or 1, for whether nominations are refused.
pub open spec fn preferences_at(bytes: Seq<u8>, pos: int) -> Result<
    (ValidatorPreferences, int),
    DecodeFailure,
> {
    match compact_at(bytes, pos, 4) {
        Err(failure) => Err(failure),
        Ok((commission, next)) => if next >= bytes.len() {
            Err(DecodeFailure::Truncated)
        } else if bytes[next] > 1 {
            Err(DecodeFailure::MalformedBool)
        } else {
            Ok(
                (
                    ValidatorPreferences {
                        commission_per_billion: commission as u32,
                        blocks_nominations: bytes[next] == 1,
                    },
                    next + 1,
                ),
            )
        },
    }
}

/// Reads a validator's preferences.
pub fn read_preferences(bytes: &[u8], pos: usize) -> (result: Result<
    (ValidatorPreferences, usize),
    ArgumentDecodeError,
>)
    ensures
        match preferences_at(bytes@, pos as int) {
            Ok((value, next)) => result == Ok::<(ValidatorPreferences, usize), ArgumentDecodeError>(
                (value, next as usize),
            ) && next <= bytes@.len(),
            Err(failure) => result matches Err(error) && error@ == failure,
        },
{
    match read_compact_u32(bytes, pos) {
        None => Err(ArgumentDecodeError::MalformedCompact),
        Some((commission, next)) => {
            if next >= bytes.len() {
                return Err(ArgumentDecodeError::Truncated);
            }
            if bytes[next] > 1 {
                return Err(ArgumentDecodeError::MalformedBool);
            }
            Ok(
                (
                    ValidatorPreferences {
                        commission_per_billion: commission,
                        blocks_nominations: bytes[next] == 1,
                    },
                    next + 1,
                ),
            )
        },
    }
}

/// Where rewards go, at `pos`: one byte, 0 staked, 1 the stash, 2 the
/// controller, 3 the account in the 32 bytes that follow, 4 nowhere.
pub open spec fn reward_destination_at(bytes: Seq<u8>, pos: int) -> Result<
    (RewardDestination, int),
    DecodeFailure,
> {
    if pos < 0 || pos >= bytes.len() {
        Err(DecodeFailure::Truncated)
    } else if bytes[pos] == 0 {
        Ok((RewardDestination::Staked, pos + 1))
    } else if bytes[pos] == 1 {
        Ok((RewardDestination::Stash, pos + 1))
    } else if bytes[pos] == 2 {
        Ok((RewardDestination::Controller, pos + 1))
    } else if bytes[pos] == 3 {
        match account_at(bytes, pos + 1) {
            Some(id) => Ok((RewardDestination::Account(id), pos + 33)),
            None => Err(DecodeFailure::Truncated),
        }
    } else if bytes[pos] == 4 {
        Ok((RewardDestination::Nowhere, pos + 1))
    } else {
        Err(DecodeFailure::MalformedVariant)
    }
}

/// Reads where rewards go.
pub fn read_reward_destination(bytes: &[u8], pos: usize) -> (result: Result<
    (RewardDestination, usize),
    ArgumentDecodeError,
>)
    ensures
        match reward_destination_at(bytes@, pos as int) {
            Ok((value, next)) => result == Ok::<(RewardDestination, usize), ArgumentDecodeError>(
                (value, next as usize),
            ) && next <= bytes@.len(),
            Err(failure) => result matches Err(error) && error@ == failure,
        },
{
    if pos >= bytes.len() {
        return Err(ArgumentDecodeError::Truncated);
    }
    let tag = bytes[pos];
    if tag == 0 {
        Ok((RewardDestination::Staked, pos + 1))
    } else if tag == 1 {
        Ok((RewardDestination::Stash, pos + 1))
    } else if tag == 2 {
        Ok((RewardDestination::Controller, pos + 1))
    } else if tag == 3 {
        match read_account(bytes, pos + 1) {
            Some((id, next)) => Ok((RewardDestination::Account(id), next)),
            None => Err(ArgumentDecodeError::Truncated),
        }
    } else if tag == 4 {
        Ok((RewardDestination::Nowhere, pos + 1))
    } else {
        Err(ArgumentDecodeError::MalformedVariant)
    }
}

} // verus!
