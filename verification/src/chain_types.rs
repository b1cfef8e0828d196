//! Values of the staking pallet as the chain's storage holds them, read from
//! their SCALE bytes.
use crate::account::{account_of, lemma_account_of, AccountId};
use crate::scale::{
    compact_size, compact_value, fixed_value, lemma_compact_size, read_compact_u128,
    read_compact_u32, read_u32, read_u8, rest,
};
use crate::validator::{Nomination, NominationView, RewardDestination, Stake, ValidatorPreferences};
use vstd::prelude::*;
use vstd::slice::slice_subrange;

verus! {

/// The account written in the 32 bytes of `data` from `pos` on, if they are there.
pub open spec fn account_at(data: Seq<u8>, pos: int) -> Option<AccountId> {
    if 0 <= pos && pos + 32 <= data.len() {
        Some(account_of(data.subrange(pos, pos + 32)))
    } else {
        None
    }
}

/// Reads the account at `pos`.
pub fn read_account(data: &[u8], pos: usize) -> (read: Option<(AccountId, usize)>)
    ensures
        match read {
            Some((id, next)) => account_at(data@, pos as int) == Some(id) && next == pos + 32,
            None => account_at(data@, pos as int) is None,
        },
{
    if pos > data.len() || data.len() - pos < 32 {
        return None;
    }
    match AccountId::from_bytes(slice_subrange(data, pos, pos + 32)) {
        Some(id) => {
            proof {
                lemma_account_of(id);
            }
            Some((id, pos + 32))
        },
        None => None,
    }
}

/// Where rewards go, as one byte says it: 0 staked, 1 the stash, 2 the
/// controller, 3 the account in the 32 bytes that follow, 4 nowhere.
pub open spec fn payee_of(data: Seq<u8>) -> Option<RewardDestination> {
    if data.len() == 0 {
        None
    } else if data[0] == 0 {
        Some(RewardDestination::Staked)
    } else if data[0] == 1 {
        Some(RewardDestination::Stash)
    } else if data[0] == 2 {
        Some(RewardDestination::Controller)
    } else if data[0] == 3 {
        match account_at(data, 1) {
            Some(id) => Some(RewardDestination::Account(id)),
            None => None,
        }
    } else if data[0] == 4 {
        Some(RewardDestination::Nowhere)
    } else {
        None
    }
}

/// Reads a reward destination.
pub fn decode_payee(data: &[u8]) -> (payee: Option<RewardDestination>)
    ensures
        payee == payee_of(data@),
{
    if data.len() == 0 {
        return None;
    }
    let tag = data[0];
    if tag == 0 {
        Some(RewardDestination::Staked)
    } else if tag == 1 {
        Some(RewardDestination::Stash)
    } else if tag == 2 {
        Some(RewardDestination::Controller)
    } else if tag == 3 {
        match read_account(data, 1) {
            Some((id, _)) => Some(RewardDestination::Account(id)),
            None => None,
        }
    } else if tag == 4 {
        Some(RewardDestination::Nowhere)
    } else {
        None
    }
}

/// A validator's preferences: the commission as a compact number of parts per
/// billion, then one byte, 0 or 1, for whether nominations are refused.
pub open spec fn preferences_of(data: Seq<u8>) -> Option<ValidatorPreferences> {
    match compact_value(data, 4) {
        None => None,
        Some(commission) => {
            let at = compact_size(data) as int;
            if at < data.len() && data[at] <= 1 {
                Some(
                    ValidatorPreferences {
                        commission_per_billion: commission as u32,
                        blocks_nominations: data[at] == 1,
                    },
                )
            } else {
                None
            }
        },
    }
}

/// Reads a validator's preferences.
pub fn decode_preferences(data: &[u8]) -> (preferences: Option<ValidatorPreferences>)
    ensures
        preferences == preferences_of(data@),
{
    assert(rest(data@, 0) =~= data@);
    match read_compact_u32(data, 0) {
        None => None,
        Some((commission, at)) => {
            match read_u8(data, at) {
                Some((flag, _)) => if flag <= 1 {
                    Some(
                        ValidatorPreferences {
                            commission_per_billion: commission,
                            blocks_nominations: flag == 1,
                        },
                    )
                } else {
                    None
                },
                None => None,
            }
        },
    }
}

/// A staking ledger: the stash in 32 bytes, then what it has bonded in all and
/// what of it is active, both compact. What follows is not read.
pub open spec fn ledger_of(data: Seq<u8>) -> Option<Stake> {
    match account_at(data, 0) {
        None => None,
        Some(stash) => match compact_value(rest(data, 32), 16) {
            None => None,
            Some(total) => {
                let at = 32 + compact_size(rest(data, 32)) as int;
                match compact_value(rest(data, at), 16) {
                    None => None,
                    Some(active) => Some(
                        Stake {
                            stash_account_id: stash,
                            total_amount: total as u128,
                            active_amount: active as u128,
                        },
                    ),
                }
            },
        },
    }
}

/// Reads a staking ledger.
pub fn decode_ledger(data: &[u8]) -> (ledger: Option<Stake>)
    ensures
        ledger == ledger_of(data@),
{
    match read_account(data, 0) {
        None => None,
        Some((stash, at)) => match read_compact_u128(data, at) {
            None => {
                proof {
                    if compact_value(rest(data@, 32), 16) is Some {
                        lemma_compact_size(rest(data@, 32), 16);
                    }
                }
                None
            },
            Some((total, next)) => match read_compact_u128(data, next) {
                None => {
                    proof {
                        if compact_value(rest(data@, next as int), 16) is Some {
                            lemma_compact_size(rest(data@, next as int), 16);
                        }
                    }
                    None
                },
                Some((active, _)) => Some(
                    Stake { stash_account_id: stash, total_amount: total, active_amount: active },
                ),
            },
        },
    }
}

/// The `count` accounts written one after the other from `pos` on.
pub open spec fn accounts_at(data: Seq<u8>, pos: int, count: int) -> Seq<AccountId> {
    Seq::new(count as nat, |i: int| account_of(data.subrange(pos + 32 * i, pos + 32 * i + 32)))
}

/// A nominator's declaration: the number of targets, compact; the targets, 32
/// bytes each; the era of the declaration in four bytes. What follows is not
/// read. The controller and the stake are not part of it.
pub open spec fn nomination_of(data: Seq<u8>, nominator: AccountId) -> Option<NominationView> {
    match compact_value(data, 4) {
        None => None,
        Some(count) => {
            let at = compact_size(data) as int;
            let after = at + 32 * count;
            if after + 4 <= data.len() {
                match fixed_value(rest(data, after), 4) {
                    Some(era) => Some(
                        NominationView {
                            nominator_account_id: nominator,
                            controller_account_id: None,
                            submission_era_index: era as u32,
                            target_account_ids: accounts_at(data, at, count as int),
                            stake: Stake {
                                stash_account_id: nominator,
                                total_amount: 0,
                                active_amount: 0,
                            },
                        },
                    ),
                    None => None,
                }
            } else {
                None
            }
        },
    }
}

/// Reads a nominator's declaration.
pub fn decode_nomination(data: &[u8], nominator: AccountId) -> (nomination: Option<Nomination>)
    ensures
        match nomination {
            Some(read) => nomination_of(data@, nominator) == Some(read@),
            None => nomination_of(data@, nominator) is None,
        },
{
    assert(rest(data@, 0) =~= data@);
    match read_compact_u32(data, 0) {
        None => None,
        Some((count, at)) => {
            let n = data.len();
            let count = count as usize;
            if (n - at) / 32 < count {
                return None;
            }
            let after = at + 32 * count;
            if n - after < 4 {
                return None;
            }
            let mut targets: Vec<AccountId> = Vec::new();
            let mut i: usize = 0;
            while i < count
                invariant
                    i <= count,
                    after == at + 32 * count,
                    after + 4 <= n,
                    n == data@.len(),
                    targets@ == accounts_at(data@, at as int, i as int),
                decreases count - i,
            {
                match read_account(data, at + 32 * i) {
                    Some((id, _)) => {
                        targets.push(id);
                        assert(targets@ =~= accounts_at(data@, at as int, i + 1));
                    },
                    None => {
                        assert(false);
                    },
                }
                i += 1;
            }
            match read_u32(data, after) {
                Some((era, _)) => Some(
                    Nomination {
                        nominator_account_id: nominator,
                        controller_account_id: None,
                        submission_era_index: era,
                        target_account_ids: targets,
                        stake: Stake::empty(nominator),
                    },
                ),
                None => None,
            }
        },
    }
}

/// The reward points of an era: all of them, and those of each validator.
#[derive(Debug, PartialEq, Eq)]
pub struct EraRewardPoints {
    pub total: u32,
    pub individual: Vec<(AccountId, u32)>,
}

/// Mathematical model of [`EraRewardPoints`].
pub struct EraRewardPointsView {
    pub total: u32,
    pub individual: Seq<(AccountId, u32)>,
}

impl View for EraRewardPoints {
    type V = EraRewardPointsView;

    open spec fn view(&self) -> EraRewardPointsView {
        EraRewardPointsView { total: self.total, individual: self.individual@ }
    }
}

/// The `count` pairs of a validator and its points, 36 bytes each, from `pos` on.
pub open spec fn points_at(data: Seq<u8>, pos: int, count: int) -> Seq<(AccountId, u32)> {
    Seq::new(
        count as nat,
        |i: int|
            (
                account_of(data.subrange(pos + 36 * i, pos + 36 * i + 32)),
                fixed_value(rest(data, pos + 36 * i + 32), 4)->Some_0 as u32,
            ),
    )
}

/// The reward points of an era as the chain's storage holds them: the total in
/// four bytes, the number of validators, compact, and for each validator its
/// account and its points in four bytes. What follows is not read.
pub open spec fn reward_points_of(data: Seq<u8>) -> Option<EraRewardPointsView> {
    if data.len() < 4 {
        None
    } else {
        match compact_value(rest(data, 4), 4) {
            None => None,
            Some(count) => {
                let at = 4 + compact_size(rest(data, 4)) as int;
                if at + 36 * count <= data.len() {
                    Some(
                        EraRewardPointsView {
                            total: fixed_value(data, 4)->Some_0 as u32,
                            individual: points_at(data, at, count as int),
                        },
                    )
                } else {
                    None
                }
            },
        }
    }
}

/// Reads the reward points of an era.
pub fn decode_era_reward_points(data: &[u8]) -> (points: Option<EraRewardPoints>)
    ensures
        match reward_points_of(data@) {
            Some(expected) => points matches Some(read) && read@ == expected,
            None => points is None,
        },
{
    assert(rest(data@, 0) =~= data@);
    let total = match read_u32(data, 0) {
        Some((total, _)) => total,
        None => {
            return None;
        },
    };
    let (count, at) = match read_compact_u32(data, 4) {
        Some(read) => read,
        None => {
            return None;
        },
    };
    let n = data.len();
    let count = count as usize;
    if (n - at) / 36 < count {
        return None;
    }
    let mut individual: Vec<(AccountId, u32)> = Vec::new();
    let mut i: usize = 0;
    while i < count
        invariant
            i <= count,
            at + 36 * count <= n,
            n == data@.len(),
            individual@ == points_at(data@, at as int, i as int),
        decreases count - i,
    {
        let id = match read_account(data, at + 36 * i) {
            Some((id, _)) => id,
            None => {
                assert(false);
                return None;
            },
        };
        let points = match read_u32(data, at + 36 * i + 32) {
            Some((points, _)) => points,
            None => {
                assert(false);
                return None;
            },
        };
        individual.push((id, points));
        assert(individual@ =~= points_at(data@, at as int, i + 1));
        i += 1;
    }
    Some(EraRewardPoints { total, individual })
}

} // verus!
