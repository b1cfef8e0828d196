//! The details of a validator as they are published, what changes in them from
//! one finalized block to the next, and how a change is put in place.
use crate::account::AccountId;
use crate::network_status::patched;
use crate::validator::{
    accounts_equal, copy_nominations, copy_numbers, copy_text, nominations_equal, numbers_equal,
    same_nominations, same_text, texts_equal, Account, Nomination, RewardDestination, Stake,
    ValidatorPreferences,
};
use vstd::prelude::*;

verus! {

/// The changed value where there is one, else the old value.
pub fn pick<T>(old_value: T, change: Option<T>) -> (value: T)
    ensures
        value == patched(old_value, change),
{
    match change {
        Some(value) => value,
        None => old_value,
    }
}

/// All that is published of a validator at a finalized block.
#[derive(Debug)]
pub struct ValidatorDetails {
    pub account: Account,
    pub controller_account_id: Option<AccountId>,
    pub is_active: bool,
    pub session_keys: String,
    pub next_session_keys: String,
    pub active_next_session: bool,
    pub reward_destination: RewardDestination,
    pub self_stake: Stake,
    pub preferences: ValidatorPreferences,
    pub slashed: bool,
    pub oversubscribed: bool,
    pub nominations: Vec<Nomination>,
    pub slash_count: u64,
    pub offline_offence_count: u64,
    pub active_era_count: u64,
    pub inactive_era_count: u64,
    pub total_reward_points: u64,
    pub unclaimed_era_indices: Vec<u32>,
    pub blocks_authored: Option<u64>,
    pub reward_points: Option<u64>,
    pub heartbeat_received: Option<bool>,
    pub onekv_candidate_record_id: Option<u32>,
    pub onekv_binary_version: Option<String>,
    pub onekv_rank: Option<u64>,
    pub onekv_location: Option<String>,
    pub onekv_is_valid: Option<bool>,
}

/// The fields of a validator's details that differ from an earlier state; the
/// others are absent.
#[derive(Debug)]
pub struct ValidatorDetailsDiff {
    pub account: Option<Account>,
    pub controller_account_id: Option<Option<AccountId>>,
    pub is_active: Option<bool>,
    pub session_keys: Option<String>,
    pub next_session_keys: Option<String>,
    pub active_next_session: Option<bool>,
    pub reward_destination: Option<RewardDestination>,
    pub self_stake: Option<Stake>,
    pub preferences: Option<ValidatorPreferences>,
    pub slashed: Option<bool>,
    pub oversubscribed: Option<bool>,
    pub nominations: Option<Vec<Nomination>>,
    pub slash_count: Option<u64>,
    pub offline_offence_count: Option<u64>,
    pub active_era_count: Option<u64>,
    pub inactive_era_count: Option<u64>,
    pub total_reward_points: Option<u64>,
    pub unclaimed_era_indices: Option<Vec<u32>>,
    pub blocks_authored: Option<Option<u64>>,
    pub reward_points: Option<Option<u64>>,
    pub heartbeat_received: Option<Option<bool>>,
    pub onekv_candidate_record_id: Option<Option<u32>>,
    pub onekv_binary_version: Option<Option<String>>,
    pub onekv_rank: Option<Option<u64>>,
    pub onekv_location: Option<Option<String>>,
    pub onekv_is_valid: Option<Option<bool>>,
}

impl ValidatorDetails {
    /// The details of a validator of which only the account is known.
    pub fn new(id: AccountId) -> (details: ValidatorDetails)
        ensures
            details.account.id == id,
            details.account.identity is None,
            details.account.parent is None,
            details.controller_account_id is None,
            !details.is_active,
            !details.active_next_session,
            details.session_keys@ == Seq::<char>::empty(),
            details.next_session_keys@ == Seq::<char>::empty(),
            details.reward_destination == RewardDestination::Staked,
            details.self_stake == (Stake { stash_account_id: id, total_amount: 0, active_amount: 0 }),
            details.preferences == (ValidatorPreferences {
                commission_per_billion: 0,
                blocks_nominations: false,
            }),
            !details.slashed,
            !details.oversubscribed,
            details.nominations@ == Seq::<Nomination>::empty(),
            details.unclaimed_era_indices@ == Seq::<u32>::empty(),
    {
        ValidatorDetails {
            account: Account::new(id),
            controller_account_id: None,
            is_active: false,
            session_keys: String::new(),
            next_session_keys: String::new(),
            active_next_session: false,
            reward_destination: RewardDestination::Staked,
            self_stake: Stake::empty(id),
            preferences: ValidatorPreferences { commission_per_billion: 0, blocks_nominations: false },
            slashed: false,
            oversubscribed: false,
            nominations: Vec::new(),
            slash_count: 0,
            offline_offence_count: 0,
            active_era_count: 0,
            inactive_era_count: 0,
            total_reward_points: 0,
            unclaimed_era_indices: Vec::new(),
            blocks_authored: None,
            reward_points: None,
            heartbeat_received: None,
            onekv_candidate_record_id: None,
            onekv_binary_version: None,
            onekv_rank: None,
            onekv_location: None,
            onekv_is_valid: None,
        }
    }

    /// Whether two states of a validator are the same, field by field.
    pub open spec fn same(self, other: ValidatorDetails) -> bool {
        &&& self.account.same(other.account)
        &&& self.controller_account_id == other.controller_account_id
        &&& self.is_active == other.is_active
        &&& self.session_keys@ == other.session_keys@
        &&& self.next_session_keys@ == other.next_session_keys@
        &&& self.active_next_session == other.active_next_session
        &&& self.reward_destination == other.reward_destination
        &&& self.self_stake == other.self_stake
        &&& self.preferences == other.preferences
        &&& self.slashed == other.slashed
        &&& self.oversubscribed == other.oversubscribed
        &&& same_nominations(self.nominations@, other.nominations@)
        &&& self.slash_count == other.slash_count
        &&& self.offline_offence_count == other.offline_offence_count
        &&& self.active_era_count == other.active_era_count
        &&& self.inactive_era_count == other.inactive_era_count
        &&& self.total_reward_points == other.total_reward_points
        &&& self.unclaimed_era_indices@ == other.unclaimed_era_indices@
        &&& self.blocks_authored == other.blocks_authored
        &&& self.reward_points == other.reward_points
        &&& self.heartbeat_received == other.heartbeat_received
        &&& self.onekv_candidate_record_id == other.onekv_candidate_record_id
        &&& same_text(self.onekv_binary_version, other.onekv_binary_version)
        &&& self.onekv_rank == other.onekv_rank
        &&& same_text(self.onekv_location, other.onekv_location)
        &&& self.onekv_is_valid == other.onekv_is_valid
    }

    /// Whether two states of a validator are the same, field by field.
    pub fn equals(&self, other: &ValidatorDetails) -> (equal: bool)
        ensures
            equal == self.same(*other),
    {
        self.account.equals(&other.account)
            && accounts_equal(&self.controller_account_id, &other.controller_account_id)
            && self.is_active == other.is_active
            && self.session_keys == other.session_keys
            && self.next_session_keys == other.next_session_keys
            && self.active_next_session == other.active_next_session
            && self.reward_destination.equals(&other.reward_destination)
            && self.self_stake.equals(&other.self_stake)
            && self.preferences == other.preferences
            && self.slashed == other.slashed
            && self.oversubscribed == other.oversubscribed
            && nominations_equal(&self.nominations, &other.nominations)
            && self.slash_count == other.slash_count
            && self.offline_offence_count == other.offline_offence_count
            && self.active_era_count == other.active_era_count
            && self.inactive_era_count == other.inactive_era_count
            && self.total_reward_points == other.total_reward_points
            && numbers_equal(&self.unclaimed_era_indices, &other.unclaimed_era_indices)
            && self.blocks_authored == other.blocks_authored
            && self.reward_points == other.reward_points
            && self.heartbeat_received == other.heartbeat_received
            && self.onekv_candidate_record_id == other.onekv_candidate_record_id
            && texts_equal(&self.onekv_binary_version, &other.onekv_binary_version)
            && self.onekv_rank == other.onekv_rank
            && texts_equal(&self.onekv_location, &other.onekv_location)
            && self.onekv_is_valid == other.onekv_is_valid
    }

    /// A copy.
    pub fn duplicate(&self) -> (copy: ValidatorDetails)
        ensures
            copy.same(*self),
    {
        ValidatorDetails {
            account: self.account.duplicate(),
            controller_account_id: self.controller_account_id,
            is_active: self.is_active,
            session_keys: self.session_keys.clone(),
            next_session_keys: self.next_session_keys.clone(),
            active_next_session: self.active_next_session,
            reward_destination: self.reward_destination,
            self_stake: self.self_stake,
            preferences: self.preferences,
            slashed: self.slashed,
            oversubscribed: self.oversubscribed,
            nominations: copy_nominations(&self.nominations),
            slash_count: self.slash_count,
            offline_offence_count: self.offline_offence_count,
            active_era_count: self.active_era_count,
            inactive_era_count: self.inactive_era_count,
            total_reward_points: self.total_reward_points,
            unclaimed_era_indices: copy_numbers(&self.unclaimed_era_indices),
            blocks_authored: self.blocks_authored,
            reward_points: self.reward_points,
            heartbeat_received: self.heartbeat_received,
            onekv_candidate_record_id: self.onekv_candidate_record_id,
            onekv_binary_version: copy_text(&self.onekv_binary_version),
            onekv_rank: self.onekv_rank,
            onekv_location: copy_text(&self.onekv_location),
            onekv_is_valid: self.onekv_is_valid,
        }
    }

    /// What `other` changes with respect to `self`: each field that differs, and
    /// no other.
    pub fn get_diff(&self, other: &ValidatorDetails) -> (diff: ValidatorDetailsDiff)
        ensures
            diff.describes(*self, *other),
    {
        ValidatorDetailsDiff {
            account: if self.account.equals(&other.account) {
                None
            } else {
                Some(other.account.duplicate())
            },
            controller_account_id: if accounts_equal(&self.controller_account_id, &other.controller_account_id) {
                None
            } else {
                Some(other.controller_account_id)
            },
            is_active: if self.is_active == other.is_active {
                None
            } else {
                Some(other.is_active)
            },
            session_keys: if self.session_keys == other.session_keys {
                None
            } else {
                Some(other.session_keys.clone())
            },
            next_session_keys: if self.next_session_keys == other.next_session_keys {
                None
            } else {
                Some(other.next_session_keys.clone())
            },
            active_next_session: if self.active_next_session == other.active_next_session {
                None
            } else {
                Some(other.active_next_session)
            },
            reward_destination: if self.reward_destination.equals(&other.reward_destination) {
                None
            } else {
                Some(other.reward_destination)
            },
            self_stake: if self.self_stake.equals(&other.self_stake) {
                None
            } else {
                Some(other.self_stake)
            },
            preferences: if self.preferences == other.preferences {
                None
            } else {
                Some(other.preferences)
            },
            slashed: if self.slashed == other.slashed {
                None
            } else {
                Some(other.slashed)
            },
            oversubscribed: if self.oversubscribed == other.oversubscribed {
                None
            } else {
                Some(other.oversubscribed)
            },
            nominations: if nominations_equal(&self.nominations, &other.nominations) {
                None
            } else {
                Some(copy_nominations(&other.nominations))
            },
            slash_count: if self.slash_count == other.slash_count {
                None
            } else {
                Some(other.slash_count)
            },
            offline_offence_count: if self.offline_offence_count == other.offline_offence_count {
                None
            } else {
                Some(other.offline_offence_count)
            },
            active_era_count: if self.active_era_count == other.active_era_count {
                None
            } else {
                Some(other.active_era_count)
            },
            inactive_era_count: if self.inactive_era_count == other.inactive_era_count {
                None
            } else {
                Some(other.inactive_era_count)
            },
            total_reward_points: if self.total_reward_points == other.total_reward_points {
                None
            } else {
                Some(other.total_reward_points)
            },
            unclaimed_era_indices: if numbers_equal(&self.unclaimed_era_indices, &other.unclaimed_era_indices) {
                None
            } else {
                Some(copy_numbers(&other.unclaimed_era_indices))
            },
            blocks_authored: if self.blocks_authored == other.blocks_authored {
                None
            } else {
                Some(other.blocks_authored)
            },
            reward_points: if self.reward_points == other.reward_points {
                None
            } else {
                Some(other.reward_points)
            },
            heartbeat_received: if self.heartbeat_received == other.heartbeat_received {
                None
            } else {
                Some(other.heartbeat_received)
            },
            onekv_candidate_record_id: if self.onekv_candidate_record_id == other.onekv_candidate_record_id {
                None
            } else {
                Some(other.onekv_candidate_record_id)
            },
            onekv_binary_version: if texts_equal(&self.onekv_binary_version, &other.onekv_binary_version) {
                None
            } else {
                Some(copy_text(&other.onekv_binary_version))
            },
            onekv_rank: if self.onekv_rank == other.onekv_rank {
                None
            } else {
                Some(other.onekv_rank)
            },
            onekv_location: if texts_equal(&self.onekv_location, &other.onekv_location) {
                None
            } else {
                Some(copy_text(&other.onekv_location))
            },
            onekv_is_valid: if self.onekv_is_valid == other.onekv_is_valid {
                None
            } else {
                Some(other.onekv_is_valid)
            },
        }
    }

    /// `self` with the fields of `diff` that are present put in place.
    pub fn apply_diff(self, diff: ValidatorDetailsDiff) -> (after: ValidatorDetails)
        ensures
            diff.applied(self, after),
    {
        ValidatorDetails {
            account: pick(self.account, diff.account),
            controller_account_id: pick(self.controller_account_id, diff.controller_account_id),
            is_active: pick(self.is_active, diff.is_active),
            session_keys: pick(self.session_keys, diff.session_keys),
            next_session_keys: pick(self.next_session_keys, diff.next_session_keys),
            active_next_session: pick(self.active_next_session, diff.active_next_session),
            reward_destination: pick(self.reward_destination, diff.reward_destination),
            self_stake: pick(self.self_stake, diff.self_stake),
            preferences: pick(self.preferences, diff.preferences),
            slashed: pick(self.slashed, diff.slashed),
            oversubscribed: pick(self.oversubscribed, diff.oversubscribed),
            nominations: pick(self.nominations, diff.nominations),
            slash_count: pick(self.slash_count, diff.slash_count),
            offline_offence_count: pick(self.offline_offence_count, diff.offline_offence_count),
            active_era_count: pick(self.active_era_count, diff.active_era_count),
            inactive_era_count: pick(self.inactive_era_count, diff.inactive_era_count),
            total_reward_points: pick(self.total_reward_points, diff.total_reward_points),
            unclaimed_era_indices: pick(self.unclaimed_era_indices, diff.unclaimed_era_indices),
            blocks_authored: pick(self.blocks_authored, diff.blocks_authored),
            reward_points: pick(self.reward_points, diff.reward_points),
            heartbeat_received: pick(self.heartbeat_received, diff.heartbeat_received),
            onekv_candidate_record_id: pick(self.onekv_candidate_record_id, diff.onekv_candidate_record_id),
            onekv_binary_version: pick(self.onekv_binary_version, diff.onekv_binary_version),
            onekv_rank: pick(self.onekv_rank, diff.onekv_rank),
            onekv_location: pick(self.onekv_location, diff.onekv_location),
            onekv_is_valid: pick(self.onekv_is_valid, diff.onekv_is_valid),
        }
    }
}

impl ValidatorDetailsDiff {
    /// Whether this is what `current` changes with respect to `previous`: a field
    /// is present exactly where the two differ, and then reads as in `current`.
    pub open spec fn describes(self, previous: ValidatorDetails, current: ValidatorDetails) -> bool {
        &&& match self.account {
            Some(value) => !(previous.account.same(current.account)) && value.same(current.account),
            None => previous.account.same(current.account),
        }
        &&& match self.controller_account_id {
            Some(value) => !(previous.controller_account_id == current.controller_account_id) && value == current.controller_account_id,
            None => previous.controller_account_id == current.controller_account_id,
        }
        &&& match self.is_active {
            Some(value) => !(previous.is_active == current.is_active) && value == current.is_active,
            None => previous.is_active == current.is_active,
        }
        &&& match self.session_keys {
            Some(value) => !(previous.session_keys@ == current.session_keys@) && value@ == current.session_keys@,
            None => previous.session_keys@ == current.session_keys@,
        }
        &&& match self.next_session_keys {
            Some(value) => !(previous.next_session_keys@ == current.next_session_keys@) && value@ == current.next_session_keys@,
            None => previous.next_session_keys@ == current.next_session_keys@,
        }
        &&& match self.active_next_session {
            Some(value) => !(previous.active_next_session == current.active_next_session) && value == current.active_next_session,
            None => previous.active_next_session == current.active_next_session,
        }
        &&& match self.reward_destination {
            Some(value) => !(previous.reward_destination == current.reward_destination) && value == current.reward_destination,
            None => previous.reward_destination == current.reward_destination,
        }
        &&& match self.self_stake {
            Some(value) => !(previous.self_stake == current.self_stake) && value == current.self_stake,
            None => previous.self_stake == current.self_stake,
        }
        &&& match self.preferences {
            Some(value) => !(previous.preferences == current.preferences) && value == current.preferences,
            None => previous.preferences == current.preferences,
        }
        &&& match self.slashed {
            Some(value) => !(previous.slashed == current.slashed) && value == current.slashed,
            None => previous.slashed == current.slashed,
        }
        &&& match self.oversubscribed {
            Some(value) => !(previous.oversubscribed == current.oversubscribed) && value == current.oversubscribed,
            None => previous.oversubscribed == current.oversubscribed,
        }
        &&& match self.nominations {
            Some(value) => !(same_nominations(previous.nominations@, current.nominations@)) && same_nominations(value@, current.nominations@),
            None => same_nominations(previous.nominations@, current.nominations@),
        }
        &&& match self.slash_count {
            Some(value) => !(previous.slash_count == current.slash_count) && value == current.slash_count,
            None => previous.slash_count == current.slash_count,
        }
        &&& match self.offline_offence_count {
            Some(value) => !(previous.offline_offence_count == current.offline_offence_count) && value == current.offline_offence_count,
            None => previous.offline_offence_count == current.offline_offence_count,
        }
        &&& match self.active_era_count {
            Some(value) => !(previous.active_era_count == current.active_era_count) && value == current.active_era_count,
            None => previous.active_era_count == current.active_era_count,
        }
        &&& match self.inactive_era_count {
            Some(value) => !(previous.inactive_era_count == current.inactive_era_count) && value == current.inactive_era_count,
            None => previous.inactive_era_count == current.inactive_era_count,
        }
        &&& match self.total_reward_points {
            Some(value) => !(previous.total_reward_points == current.total_reward_points) && value == current.total_reward_points,
            None => previous.total_reward_points == current.total_reward_points,
        }
        &&& match self.unclaimed_era_indices {
            Some(value) => !(previous.unclaimed_era_indices@ == current.unclaimed_era_indices@) && value@ == current.unclaimed_era_indices@,
            None => previous.unclaimed_era_indices@ == current.unclaimed_era_indices@,
        }
        &&& match self.blocks_authored {
            Some(value) => !(previous.blocks_authored == current.blocks_authored) && value == current.blocks_authored,
            None => previous.blocks_authored == current.blocks_authored,
        }
        &&& match self.reward_points {
            Some(value) => !(previous.reward_points == current.reward_points) && value == current.reward_points,
            None => previous.reward_points == current.reward_points,
        }
        &&& match self.heartbeat_received {
            Some(value) => !(previous.heartbeat_received == current.heartbeat_received) && value == current.heartbeat_received,
            None => previous.heartbeat_received == current.heartbeat_received,
        }
        &&& match self.onekv_candidate_record_id {
            Some(value) => !(previous.onekv_candidate_record_id == current.onekv_candidate_record_id) && value == current.onekv_candidate_record_id,
            None => previous.onekv_candidate_record_id == current.onekv_candidate_record_id,
        }
        &&& match self.onekv_binary_version {
            Some(value) => !(same_text(previous.onekv_binary_version, current.onekv_binary_version)) && same_text(value, current.onekv_binary_version),
            None => same_text(previous.onekv_binary_version, current.onekv_binary_version),
        }
        &&& match self.onekv_rank {
            Some(value) => !(previous.onekv_rank == current.onekv_rank) && value == current.onekv_rank,
            None => previous.onekv_rank == current.onekv_rank,
        }
        &&& match self.onekv_location {
            Some(value) => !(same_text(previous.onekv_location, current.onekv_location)) && same_text(value, current.onekv_location),
            None => same_text(previous.onekv_location, current.onekv_location),
        }
        &&& match self.onekv_is_valid {
            Some(value) => !(previous.onekv_is_valid == current.onekv_is_valid) && value == current.onekv_is_valid,
            None => previous.onekv_is_valid == current.onekv_is_valid,
        }
    }

    /// Whether `after` is `before` with the fields that are present put in place.
    pub open spec fn applied(self, before: ValidatorDetails, after: ValidatorDetails) -> bool {
        &&& after.account == patched(before.account, self.account)
        &&& after.controller_account_id == patched(before.controller_account_id, self.controller_account_id)
        &&& after.is_active == patched(before.is_active, self.is_active)
        &&& after.session_keys == patched(before.session_keys, self.session_keys)
        &&& after.next_session_keys == patched(before.next_session_keys, self.next_session_keys)
        &&& after.active_next_session == patched(before.active_next_session, self.active_next_session)
        &&& after.reward_destination == patched(before.reward_destination, self.reward_destination)
        &&& after.self_stake == patched(before.self_stake, self.self_stake)
        &&& after.preferences == patched(before.preferences, self.preferences)
        &&& after.slashed == patched(before.slashed, self.slashed)
        &&& after.oversubscribed == patched(before.oversubscribed, self.oversubscribed)
        &&& after.nominations == patched(before.nominations, self.nominations)
        &&& after.slash_count == patched(before.slash_count, self.slash_count)
        &&& after.offline_offence_count == patched(before.offline_offence_count, self.offline_offence_count)
        &&& after.active_era_count == patched(before.active_era_count, self.active_era_count)
        &&& after.inactive_era_count == patched(before.inactive_era_count, self.inactive_era_count)
        &&& after.total_reward_points == patched(before.total_reward_points, self.total_reward_points)
        &&& after.unclaimed_era_indices == patched(before.unclaimed_era_indices, self.unclaimed_era_indices)
        &&& after.blocks_authored == patched(before.blocks_authored, self.blocks_authored)
        &&& after.reward_points == patched(before.reward_points, self.reward_points)
        &&& after.heartbeat_received == patched(before.heartbeat_received, self.heartbeat_received)
        &&& after.onekv_candidate_record_id == patched(before.onekv_candidate_record_id, self.onekv_candidate_record_id)
        &&& after.onekv_binary_version == patched(before.onekv_binary_version, self.onekv_binary_version)
        &&& after.onekv_rank == patched(before.onekv_rank, self.onekv_rank)
        &&& after.onekv_location == patched(before.onekv_location, self.onekv_location)
        &&& after.onekv_is_valid == patched(before.onekv_is_valid, self.onekv_is_valid)
    }

    /// Whether no field is present.
    pub open spec fn spec_is_empty(&self) -> bool {
        &&& self.account is None
        &&& self.controller_account_id is None
        &&& self.is_active is None
        &&& self.session_keys is None
        &&& self.next_session_keys is None
        &&& self.active_next_session is None
        &&& self.reward_destination is None
        &&& self.self_stake is None
        &&& self.preferences is None
        &&& self.slashed is None
        &&& self.oversubscribed is None
        &&& self.nominations is None
        &&& self.slash_count is None
        &&& self.offline_offence_count is None
        &&& self.active_era_count is None
        &&& self.inactive_era_count is None
        &&& self.total_reward_points is None
        &&& self.unclaimed_era_indices is None
        &&& self.blocks_authored is None
        &&& self.reward_points is None
        &&& self.heartbeat_received is None
        &&& self.onekv_candidate_record_id is None
        &&& self.onekv_binary_version is None
        &&& self.onekv_rank is None
        &&& self.onekv_location is None
        &&& self.onekv_is_valid is None
    }

    /// Whether no field is present.
    #[verifier::when_used_as_spec(spec_is_empty)]
    pub fn is_empty(&self) -> (empty: bool)
        ensures
            empty == self.spec_is_empty(),
    {
        self.account.is_none()
            && self.controller_account_id.is_none()
            && self.is_active.is_none()
            && self.session_keys.is_none()
            && self.next_session_keys.is_none()
            && self.active_next_session.is_none()
            && self.reward_destination.is_none()
            && self.self_stake.is_none()
            && self.preferences.is_none()
            && self.slashed.is_none()
            && self.oversubscribed.is_none()
            && self.nominations.is_none()
            && self.slash_count.is_none()
            && self.offline_offence_count.is_none()
            && self.active_era_count.is_none()
            && self.inactive_era_count.is_none()
            && self.total_reward_points.is_none()
            && self.unclaimed_era_indices.is_none()
            && self.blocks_authored.is_none()
            && self.reward_points.is_none()
            && self.heartbeat_received.is_none()
            && self.onekv_candidate_record_id.is_none()
            && self.onekv_binary_version.is_none()
            && self.onekv_rank.is_none()
            && self.onekv_location.is_none()
            && self.onekv_is_valid.is_none()
    }
}

/// Applying to the details of a validator what a later state changes in them
/// gives that later state.
pub proof fn lemma_details_diff_apply(
    previous: ValidatorDetails,
    current: ValidatorDetails,
    diff: ValidatorDetailsDiff,
    result: ValidatorDetails,
)
    requires
        diff.describes(previous, current),
        diff.applied(previous, result),
    ensures
        result.same(current),
{
}

/// Two states of a validator differ in nothing exactly when they are the same.
pub proof fn lemma_details_diff_empty(
    previous: ValidatorDetails,
    current: ValidatorDetails,
    diff: ValidatorDetailsDiff,
)
    requires
        diff.describes(previous, current),
    ensures
        diff.spec_is_empty() <==> previous.same(current),
{
}

} // verus!
