//! Live network status, the differences between two of them, and the
//! decisions of the presenter that publishes them.
use vstd::prelude::*;

verus! {

/// Amount of the chain's currency, in its smallest unit.
pub type Balance = u128;

/// What is published about the network after each best block.
#[derive(Clone, Copy, Debug, PartialEq, Eq, Structural)]
pub struct LiveNetworkStatus {
    pub best_block_number: u64,
    pub finalized_block_number: u64,
    pub era_index: u32,
    pub epoch_index: u64,
    pub last_era_reward_points: u32,
    pub total_stake: Balance,
    pub min_stake: Balance,
    pub max_stake: Balance,
    pub average_stake: Balance,
    pub median_stake: Balance,
    pub active_validator_count: u32,
    pub inactive_validator_count: u32,
    pub oversubscribed_validator_count: u32,
}

/// The fields of a status that differ from an earlier one; the others are absent.
#[derive(Clone, Copy, Debug, PartialEq, Eq, Structural)]
pub struct LiveNetworkStatusDiff {
    pub best_block_number: Option<u64>,
    pub finalized_block_number: Option<u64>,
    pub era_index: Option<u32>,
    pub epoch_index: Option<u64>,
    pub last_era_reward_points: Option<u32>,
    pub total_stake: Option<Balance>,
    pub min_stake: Option<Balance>,
    pub max_stake: Option<Balance>,
    pub average_stake: Option<Balance>,
    pub median_stake: Option<Balance>,
    pub active_validator_count: Option<u32>,
    pub inactive_validator_count: Option<u32>,
    pub oversubscribed_validator_count: Option<u32>,
}

/// The new value where it differs from the old one.
pub open spec fn changed<T>(old_value: T, new_value: T) -> Option<T> {
    if old_value == new_value {
        None
    } else {
        Some(new_value)
    }
}

/// The changed value where there is one, else the old value.
pub open spec fn patched<T>(old_value: T, change: Option<T>) -> T {
    match change {
        Some(value) => value,
        None => old_value,
    }
}

fn changed_u32(old_value: u32, new_value: u32) -> (change: Option<u32>)
    ensures
        change == changed(old_value, new_value),
{
    if old_value == new_value {
        None
    } else {
        Some(new_value)
    }
}

fn changed_u64(old_value: u64, new_value: u64) -> (change: Option<u64>)
    ensures
        change == changed(old_value, new_value),
{
    if old_value == new_value {
        None
    } else {
        Some(new_value)
    }
}

fn changed_balance(old_value: Balance, new_value: Balance) -> (change: Option<Balance>)
    ensures
        change == changed(old_value, new_value),
{
    if old_value == new_value {
        None
    } else {
        Some(new_value)
    }
}

fn patched_u32(old_value: u32, change: Option<u32>) -> (value: u32)
    ensures
        value == patched(old_value, change),
{
    match change {
        Some(value) => value,
        None => old_value,
    }
}

fn patched_u64(old_value: u64, change: Option<u64>) -> (value: u64)
    ensures
        value == patched(old_value, change),
{
    match change {
        Some(value) => value,
        None => old_value,
    }
}

fn patched_balance(old_value: Balance, change: Option<Balance>) -> (value: Balance)
    ensures
        value == patched(old_value, change),
{
    match change {
        Some(value) => value,
        None => old_value,
    }
}

impl LiveNetworkStatus {
    /// The status before any block was seen.
    pub open spec fn spec_empty() -> LiveNetworkStatus {
        LiveNetworkStatus {
            best_block_number: 0,
            finalized_block_number: 0,
            era_index: 0,
            epoch_index: 0,
            last_era_reward_points: 0,
            total_stake: 0,
            min_stake: 0,
            max_stake: 0,
            average_stake: 0,
            median_stake: 0,
            active_validator_count: 0,
            inactive_validator_count: 0,
            oversubscribed_validator_count: 0,
        }
    }

    /// What `other` changes with respect to `self`, field by field.
    pub open spec fn spec_diff(self, other: LiveNetworkStatus) -> LiveNetworkStatusDiff {
        LiveNetworkStatusDiff {
            best_block_number: changed(self.best_block_number, other.best_block_number),
            finalized_block_number: changed(
                self.finalized_block_number,
                other.finalized_block_number,
            ),
            era_index: changed(self.era_index, other.era_index),
            epoch_index: changed(self.epoch_index, other.epoch_index),
            last_era_reward_points: changed(
                self.last_era_reward_points,
                other.last_era_reward_points,
            ),
            total_stake: changed(self.total_stake, other.total_stake),
            min_stake: changed(self.min_stake, other.min_stake),
            max_stake: changed(self.max_stake, other.max_stake),
            average_stake: changed(self.average_stake, other.average_stake),
            median_stake: changed(self.median_stake, other.median_stake),
            active_validator_count: changed(
                self.active_validator_count,
                other.active_validator_count,
            ),
            inactive_validator_count: changed(
                self.inactive_validator_count,
                other.inactive_validator_count,
            ),
            oversubscribed_validator_count: changed(
                self.oversubscribed_validator_count,
                other.oversubscribed_validator_count,
            ),
        }
    }

    /// `self` with the fields of `diff` that are present put in place.
    pub open spec fn spec_apply(self, diff: LiveNetworkStatusDiff) -> LiveNetworkStatus {
        LiveNetworkStatus {
            best_block_number: patched(self.best_block_number, diff.best_block_number),
            finalized_block_number: patched(
                self.finalized_block_number,
                diff.finalized_block_number,
            ),
            era_index: patched(self.era_index, diff.era_index),
            epoch_index: patched(self.epoch_index, diff.epoch_index),
            last_era_reward_points: patched(
                self.last_era_reward_points,
                diff.last_era_reward_points,
            ),
            total_stake: patched(self.total_stake, diff.total_stake),
            min_stake: patched(self.min_stake, diff.min_stake),
            max_stake: patched(self.max_stake, diff.max_stake),
            average_stake: patched(self.average_stake, diff.average_stake),
            median_stake: patched(self.median_stake, diff.median_stake),
            active_validator_count: patched(
                self.active_validator_count,
                diff.active_validator_count,
            ),
            inactive_validator_count: patched(
                self.inactive_validator_count,
                diff.inactive_validator_count,
            ),
            oversubscribed_validator_count: patched(
                self.oversubscribed_validator_count,
                diff.oversubscribed_validator_count,
            ),
        }
    }

    /// What `other` changes with respect to `self`: each field that differs, and no other.
    pub fn get_diff(&self, other: &LiveNetworkStatus) -> (diff: LiveNetworkStatusDiff)
        ensures
            diff == self.spec_diff(*other),
    {
        LiveNetworkStatusDiff {
            best_block_number: changed_u64(self.best_block_number, other.best_block_number),
            finalized_block_number: changed_u64(
                self.finalized_block_number,
                other.finalized_block_number,
            ),
            era_index: changed_u32(self.era_index, other.era_index),
            epoch_index: changed_u64(self.epoch_index, other.epoch_index),
            last_era_reward_points: changed_u32(
                self.last_era_reward_points,
                other.last_era_reward_points,
            ),
            total_stake: changed_balance(self.total_stake, other.total_stake),
            min_stake: changed_balance(self.min_stake, other.min_stake),
            max_stake: changed_balance(self.max_stake, other.max_stake),
            average_stake: changed_balance(self.average_stake, other.average_stake),
            median_stake: changed_balance(self.median_stake, other.median_stake),
            active_validator_count: changed_u32(
                self.active_validator_count,
                other.active_validator_count,
            ),
            inactive_validator_count: changed_u32(
                self.inactive_validator_count,
                other.inactive_validator_count,
            ),
            oversubscribed_validator_count: changed_u32(
                self.oversubscribed_validator_count,
                other.oversubscribed_validator_count,
            ),
        }
    }

    /// Puts the fields of `diff` that are present in place of those of `self`.
    pub fn apply_diff(&mut self, diff: &LiveNetworkStatusDiff)
        ensures
            *final(self) == old(self).spec_apply(*diff),
    {
        self.best_block_number = patched_u64(self.best_block_number, diff.best_block_number);
        self.finalized_block_number = patched_u64(
            self.finalized_block_number,
            diff.finalized_block_number,
        );
        self.era_index = patched_u32(self.era_index, diff.era_index);
        self.epoch_index = patched_u64(self.epoch_index, diff.epoch_index);
        self.last_era_reward_points = patched_u32(
            self.last_era_reward_points,
            diff.last_era_reward_points,
        );
        self.total_stake = patched_balance(self.total_stake, diff.total_stake);
        self.min_stake = patched_balance(self.min_stake, diff.min_stake);
        self.max_stake = patched_balance(self.max_stake, diff.max_stake);
        self.average_stake = patched_balance(self.average_stake, diff.average_stake);
        self.median_stake = patched_balance(self.median_stake, diff.median_stake);
        self.active_validator_count = patched_u32(
            self.active_validator_count,
            diff.active_validator_count,
        );
        self.inactive_validator_count = patched_u32(
            self.inactive_validator_count,
            diff.inactive_validator_count,
        );
        self.oversubscribed_validator_count = patched_u32(
            self.oversubscribed_validator_count,
            diff.oversubscribed_validator_count,
        );
    }
}

impl Default for LiveNetworkStatus {
    fn default() -> (status: LiveNetworkStatus)
        ensures
            status == LiveNetworkStatus::spec_empty(),
    {
        LiveNetworkStatus {
            best_block_number: 0,
            finalized_block_number: 0,
            era_index: 0,
            epoch_index: 0,
            last_era_reward_points: 0,
            total_stake: 0,
            min_stake: 0,
            max_stake: 0,
            average_stake: 0,
            median_stake: 0,
            active_validator_count: 0,
            inactive_validator_count: 0,
            oversubscribed_validator_count: 0,
        }
    }
}

impl LiveNetworkStatusDiff {
    /// Whether no field is present.
    pub open spec fn spec_is_empty(&self) -> bool {
        &&& self.best_block_number is None
        &&& self.finalized_block_number is None
        &&& self.era_index is None
        &&& self.epoch_index is None
        &&& self.last_era_reward_points is None
        &&& self.total_stake is None
        &&& self.min_stake is None
        &&& self.max_stake is None
        &&& self.average_stake is None
        &&& self.median_stake is None
        &&& self.active_validator_count is None
        &&& self.inactive_validator_count is None
        &&& self.oversubscribed_validator_count is None
    }

    /// Whether no field is present.
    #[verifier::when_used_as_spec(spec_is_empty)]
    pub fn is_empty(&self) -> (empty: bool)
        ensures
            empty == self.spec_is_empty(),
    {
        self.best_block_number.is_none() && self.finalized_block_number.is_none()
            && self.era_index.is_none() && self.epoch_index.is_none()
            && self.last_era_reward_points.is_none() && self.total_stake.is_none()
            && self.min_stake.is_none() && self.max_stake.is_none()
            && self.average_stake.is_none() && self.median_stake.is_none()
            && self.active_validator_count.is_none() && self.inactive_validator_count.is_none()
            && self.oversubscribed_validator_count.is_none()
    }
}

/// Applying to a status what another changes in it gives that other status.
pub proof fn lemma_status_diff_apply(previous: LiveNetworkStatus, current: LiveNetworkStatus)
    ensures
        previous.spec_apply(previous.spec_diff(current)) == current,
{
}

/// Two statuses differ in nothing exactly when they are equal.
pub proof fn lemma_status_diff_empty(previous: LiveNetworkStatus, current: LiveNetworkStatus)
    ensures
        previous.spec_diff(current).spec_is_empty() <==> previous == current,
{
}

} // verus!
