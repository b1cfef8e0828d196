//! The validator list of a finalized block, put together from what the chain's
//! storage and the relational store hold.
use crate::account::{position_of, AccountId};
use crate::nomination_sort::{ordered, sort_nominations};
use crate::validator::{
    nomination_views, IdentityRegistration, Nomination, NominationView, ParentAccount,
    RewardDestination, Stake, ValidatorPreferences,
};
use crate::validator_details::ValidatorDetails;
use vstd::prelude::*;

verus! {

/// What the relational store knows of a validator.
#[derive(Debug)]
pub struct ValidatorInfo {
    pub discovered_at: Option<u64>,
    pub killed_at: Option<u64>,
    pub slash_count: u64,
    pub offline_offence_count: u64,
    pub active_era_count: u64,
    pub inactive_era_count: u64,
    pub total_reward_points: u64,
    pub unclaimed_era_indices: Vec<u32>,
    pub blocks_authored: Option<u64>,
    pub reward_points: Option<u64>,
    pub heartbeat_received: Option<bool>,
    pub onekv_candidate_record_id: Option<u32>,
    pub onekv_binary_version: Option<String>,
    pub onekv_rank: Option<u64>,
    pub onekv_location: Option<String>,
    pub onekv_is_valid: Option<bool>,
}

/// One piece of what is learned of a validator while its details are put together.
#[derive(Debug)]
pub enum ValidatorPatch {
    /// The session keys it has set for the next session, as text.
    NextSessionKeys(String),
    /// The session keys queued for it for the next session, as text: it is active
    /// in the next session exactly if they are the keys it has set.
    QueuedKeys(String),
    /// Where its rewards go.
    Payee(RewardDestination),
    /// It has a slash in the current era.
    Slashed,
    /// Its controller account.
    Controller(AccountId),
    /// What it has bonded itself.
    SelfStake(Stake),
    /// What it states of itself, if anything.
    Identity(Option<IdentityRegistration>),
    /// The account above it.
    Parent(ParentAccount),
    /// Its commission and whether it refuses nominations.
    Preferences(ValidatorPreferences),
    /// What the relational store knows of it.
    Info(ValidatorInfo),
}

/// The details of a validator once a patch is put in place.
pub open spec fn patched_details(details: ValidatorDetails, patch: ValidatorPatch) -> ValidatorDetails {
    match patch {
        ValidatorPatch::NextSessionKeys(keys) => ValidatorDetails {
            next_session_keys: keys,
            ..details
        },
        ValidatorPatch::QueuedKeys(keys) => ValidatorDetails {
            active_next_session: details.next_session_keys@ == keys@,
            ..details
        },
        ValidatorPatch::Payee(destination) => ValidatorDetails {
            reward_destination: destination,
            ..details
        },
        ValidatorPatch::Slashed => ValidatorDetails { slashed: true, ..details },
        ValidatorPatch::Controller(id) => ValidatorDetails {
            controller_account_id: Some(id),
            ..details
        },
        ValidatorPatch::SelfStake(stake) => ValidatorDetails { self_stake: stake, ..details },
        ValidatorPatch::Identity(identity) => ValidatorDetails {
            account: crate::validator::Account { identity, ..details.account },
            ..details
        },
        ValidatorPatch::Parent(parent) => ValidatorDetails {
            account: crate::validator::Account { parent: Some(parent), ..details.account },
            ..details
        },
        ValidatorPatch::Preferences(preferences) => ValidatorDetails { preferences, ..details },
        ValidatorPatch::Info(info) => ValidatorDetails {
            account: crate::validator::Account {
                discovered_at: info.discovered_at,
                killed_at: info.killed_at,
                ..details.account
            },
            slash_count: info.slash_count,
            offline_offence_count: info.offline_offence_count,
            active_era_count: info.active_era_count,
            inactive_era_count: info.inactive_era_count,
            total_reward_points: info.total_reward_points,
            unclaimed_era_indices: info.unclaimed_era_indices,
            blocks_authored: info.blocks_authored,
            reward_points: info.reward_points,
            heartbeat_received: info.heartbeat_received,
            onekv_candidate_record_id: info.onekv_candidate_record_id,
            onekv_binary_version: info.onekv_binary_version,
            onekv_rank: info.onekv_rank,
            onekv_location: info.onekv_location,
            onekv_is_valid: info.onekv_is_valid,
            ..details
        },
    }
}

/// The details of the validator `id` once the first `upto` of `patches` are put
/// in place, in their order; patches for other accounts leave them as they are.
pub open spec fn patched_by_all(
    details: ValidatorDetails,
    patches: Seq<(AccountId, ValidatorPatch)>,
    upto: int,
) -> ValidatorDetails
    decreases upto,
{
    if upto <= 0 || upto > patches.len() {
        details
    } else {
        let before = patched_by_all(details, patches, upto - 1);
        if patches[upto - 1].0 == details.account.id {
            patched_details(before, patches[upto - 1].1)
        } else {
            before
        }
    }
}

/// The accounts of the first `upto` of `ids`, each once, in the order in which
/// they first occur.
pub open spec fn first_occurrences(ids: Seq<AccountId>, upto: int) -> Seq<AccountId>
    decreases upto,
{
    if upto <= 0 || upto > ids.len() {
        Seq::empty()
    } else {
        let before = first_occurrences(ids, upto - 1);
        if before.contains(ids[upto - 1]) {
            before
        } else {
            before.push(ids[upto - 1])
        }
    }
}

/// The accounts of a list of validators.
pub open spec fn accounts_of(validators: Seq<ValidatorDetails>) -> Seq<AccountId> {
    Seq::new(validators.len(), |i: int| validators[i].account.id)
}

/// Whether no account occurs twice in a list of validators.
pub open spec fn distinct_accounts(validators: Seq<ValidatorDetails>) -> bool {
    forall|i: int, j: int|
        0 <= i < j < validators.len() ==> (#[trigger] validators[i]).account.id != (
        #[trigger] validators[j]).account.id
}

/// What is known of a validator before anything is read about it: its account,
/// and whether it is in the active set.
pub open spec fn is_fresh(details: ValidatorDetails, id: AccountId, is_active: bool) -> bool {
    &&& details.account.id == id
    &&& details.account.identity is None
    &&& details.account.parent is None
    &&& details.controller_account_id is None
    &&& details.is_active == is_active
    &&& !details.active_next_session
    &&& details.next_session_keys@ == Seq::<char>::empty()
    &&& details.reward_destination == RewardDestination::Staked
    &&& !details.slashed
    &&& !details.oversubscribed
    &&& details.nominations@ == Seq::<Nomination>::empty()
}

/// The validators of one finalized block, each account once.
#[derive(Debug)]
pub struct ValidatorSet {
    validators: Vec<ValidatorDetails>,
}

impl View for ValidatorSet {
    type V = Seq<ValidatorDetails>;

    closed spec fn view(&self) -> Seq<ValidatorDetails> {
        self.validators@
    }
}

/// Position of the validator `id` in a list, if it is there.
fn find(validators: &Vec<ValidatorDetails>, id: &AccountId) -> (position: Option<usize>)
    ensures
        match position {
            Some(i) => i < validators@.len() && validators@[i as int].account.id == *id,
            None => forall|j: int|
                0 <= j < validators@.len() ==> (#[trigger] validators@[j]).account.id != *id,
        },
{
    let mut i: usize = 0;
    while i < validators.len()
        invariant
            i <= validators@.len(),
            forall|j: int| 0 <= j < i ==> (#[trigger] validators@[j]).account.id != *id,
        decreases validators@.len() - i,
    {
        if validators[i].account.id.same(id) {
            assert(validators@[i as int].account.id.bytes =~= id.bytes);
            return Some(i);
        }
        i += 1;
    }
    None
}

impl ValidatorSet {
    /// The validators of a block: every account that has declared its intention to
    /// validate, once, in the order of first occurrence; active exactly if it is
    /// among the accounts of the session's validators.
    pub fn from_intentions(active_ids: &Vec<AccountId>, intention_ids: &Vec<AccountId>) -> (set:
        ValidatorSet)
        ensures
            distinct_accounts(set@),
            accounts_of(set@) == first_occurrences(intention_ids@, intention_ids@.len() as int),
            forall|i: int|
                0 <= i < set@.len() ==> is_fresh(
                    #[trigger] set@[i],
                    set@[i].account.id,
                    active_ids@.contains(set@[i].account.id),
                ),
    {
        let mut validators: Vec<ValidatorDetails> = Vec::new();
        let mut k: usize = 0;
        assert(accounts_of(validators@) =~= first_occurrences(intention_ids@, 0));
        while k < intention_ids.len()
            invariant
                k <= intention_ids@.len(),
                distinct_accounts(validators@),
                accounts_of(validators@) == first_occurrences(intention_ids@, k as int),
                forall|i: int|
                    0 <= i < validators@.len() ==> is_fresh(
                        #[trigger] validators@[i],
                        validators@[i].account.id,
                        active_ids@.contains(validators@[i].account.id),
                    ),
            decreases intention_ids@.len() - k,
        {
            let id = intention_ids[k];
            let ghost before = validators@;
            match find(&validators, &id) {
                Some(i) => {
                    assert(accounts_of(before)[i as int] == id);
                    assert(first_occurrences(intention_ids@, k as int).contains(id));
                },
                None => {
                    assert(!first_occurrences(intention_ids@, k as int).contains(id)) by {
                        if first_occurrences(intention_ids@, k as int).contains(id) {
                            let j = choose|j: int|
                                0 <= j < accounts_of(before).len() && accounts_of(before)[j] == id;
                            assert(before[j].account.id == id);
                        }
                    }
                    let mut details = ValidatorDetails::new(id);
                    let is_active = match position_of(active_ids, &id) {
                        Some(p) => {
                            assert(active_ids@[p as int].bytes =~= id.bytes);
                            true
                        },
                        None => {
                            assert(!active_ids@.contains(id)) by {
                                if active_ids@.contains(id) {
                                    let p = choose|p: int|
                                        0 <= p < active_ids@.len() && active_ids@[p] == id;
                                    assert(active_ids@[p]@ == id@);
                                }
                            }
                            false
                        },
                    };
                    details.is_active = is_active;
                    validators.push(details);
                    assert(accounts_of(validators@) =~= accounts_of(before).push(id));
                },
            }
            k += 1;
        }
        ValidatorSet { validators }
    }

    /// The validators, in their order.
    pub fn validators(&self) -> (validators: &Vec<ValidatorDetails>)
        ensures
            validators@ == self@,
    {
        &self.validators
    }

    /// Gives up the set for its validators.
    pub fn into_validators(self) -> (validators: Vec<ValidatorDetails>)
        ensures
            validators@ == self@,
    {
        self.validators
    }

    /// How many validators there are.
    pub fn len(&self) -> (count: usize)
        ensures
            count == self@.len(),
    {
        self.validators.len()
    }

    /// Position of the validator `id`, if it is in the set.
    pub fn position(&self, id: &AccountId) -> (position: Option<usize>)
        ensures
            match position {
                Some(i) => i < self@.len() && self@[i as int].account.id == *id,
                None => forall|j: int| 0 <= j < self@.len() ==> (#[trigger] self@[j]).account.id != *id,
            },
    {
        find(&self.validators, id)
    }
}

} // verus!

verus! {

/// Puts a patch in place.
pub fn apply_patch(details: &mut ValidatorDetails, patch: ValidatorPatch)
    ensures
        *final(details) == patched_details(*old(details), patch),
{
    match patch {
        ValidatorPatch::NextSessionKeys(keys) => {
            details.next_session_keys = keys;
        },
        ValidatorPatch::QueuedKeys(keys) => {
            details.active_next_session = details.next_session_keys == keys;
        },
        ValidatorPatch::Payee(destination) => {
            details.reward_destination = destination;
        },
        ValidatorPatch::Slashed => {
            details.slashed = true;
        },
        ValidatorPatch::Controller(id) => {
            details.controller_account_id = Some(id);
        },
        ValidatorPatch::SelfStake(stake) => {
            details.self_stake = stake;
        },
        ValidatorPatch::Identity(identity) => {
            details.account.identity = identity;
        },
        ValidatorPatch::Parent(parent) => {
            details.account.parent = Some(parent);
        },
        ValidatorPatch::Preferences(preferences) => {
            details.preferences = preferences;
        },
        ValidatorPatch::Info(info) => {
            details.account.discovered_at = info.discovered_at;
            details.account.killed_at = info.killed_at;
            details.slash_count = info.slash_count;
            details.offline_offence_count = info.offline_offence_count;
            details.active_era_count = info.active_era_count;
            details.inactive_era_count = info.inactive_era_count;
            details.total_reward_points = info.total_reward_points;
            details.unclaimed_era_indices = info.unclaimed_era_indices;
            details.blocks_authored = info.blocks_authored;
            details.reward_points = info.reward_points;
            details.heartbeat_received = info.heartbeat_received;
            details.onekv_candidate_record_id = info.onekv_candidate_record_id;
            details.onekv_binary_version = info.onekv_binary_version;
            details.onekv_rank = info.onekv_rank;
            details.onekv_location = info.onekv_location;
            details.onekv_is_valid = info.onekv_is_valid;
        },
    }
}

/// Patches leave the account of a validator as it is.
pub proof fn lemma_patches_keep_account(
    details: ValidatorDetails,
    patches: Seq<(AccountId, ValidatorPatch)>,
    upto: int,
)
    ensures
        patched_by_all(details, patches, upto).account.id == details.account.id,
    decreases upto,
{
    if 0 < upto <= patches.len() {
        lemma_patches_keep_account(details, patches, upto - 1);
    }
}

impl ValidatorSet {
    /// Puts in place, in their order, the patches for the validators of the set;
    /// a patch for an account that is not in the set changes nothing.
    pub fn apply_patches(&mut self, patches: Vec<(AccountId, ValidatorPatch)>)
        requires
            distinct_accounts(old(self)@),
        ensures
            distinct_accounts(final(self)@),
            final(self)@.len() == old(self)@.len(),
            forall|i: int|
                0 <= i < old(self)@.len() ==> #[trigger] final(self)@[i] == patched_by_all(
                    old(self)@[i],
                    patches@,
                    patches@.len() as int,
                ),
    {
        let ghost all = patches@;
        let ghost start = self.validators@;
        for entry in it: patches
            invariant
                all == it.seq(),
                self.validators@.len() == start.len(),
                distinct_accounts(start),
                forall|i: int|
                    0 <= i < start.len() ==> #[trigger] self.validators@[i] == patched_by_all(
                        start[i],
                        all,
                        it.index() as int,
                    ),
        {
            let (id, patch) = entry;
            let ghost done = it.index() as int;
            let ghost before = self.validators@;
            proof {
                assert forall|i: int| 0 <= i < start.len() implies (#[trigger] before[i]).account.id
                    == start[i].account.id by {
                    lemma_patches_keep_account(start[i], all, done);
                }
            }
            match find(&self.validators, &id) {
                Some(position) => {
                    apply_patch(&mut self.validators[position], patch);
                    assert forall|i: int| 0 <= i < start.len() implies #[trigger] self.validators@[i]
                        == patched_by_all(start[i], all, done + 1) by {
                        if i != position {
                            assert(self.validators@[i] == before[i]);
                            assert(start[i].account.id != id) by {
                                if i < position {
                                    assert(start[i].account.id != start[position as int].account.id);
                                } else {
                                    assert(start[position as int].account.id != start[i].account.id);
                                }
                            }
                        }
                    }
                },
                None => {
                    assert forall|i: int| 0 <= i < start.len() implies #[trigger] self.validators@[i]
                        == patched_by_all(start[i], all, done + 1) by {
                        assert(before[i].account.id != id);
                    }
                },
            }
        }
        proof {
            assert forall|i: int, j: int| 0 <= i < j < self.validators@.len() implies (
            #[trigger] self.validators@[i]).account.id != (#[trigger] self.validators@[j]).account.id by {
                lemma_patches_keep_account(start[i], all, all.len() as int);
                lemma_patches_keep_account(start[j], all, all.len() as int);
            }
        }
    }
}

} // verus!

verus! {

/// The nominations among the first `upto` that back `validator`, in their order.
/// A nomination whose controller account is not known is left out.
pub open spec fn backers(nominations: Seq<NominationView>, validator: AccountId, upto: int) -> Seq<
    NominationView,
>
    decreases upto,
{
    if upto <= 0 || upto > nominations.len() {
        Seq::empty()
    } else {
        let before = backers(nominations, validator, upto - 1);
        let nomination = nominations[upto - 1];
        if nomination.controller_account_id is Some && nomination.target_account_ids.contains(
            validator,
        ) {
            before.push(nomination)
        } else {
            before
        }
    }
}

/// The nominations that back `validator`, in the order of their keys.
pub open spec fn ordered_backers(nominations: Seq<NominationView>, validator: AccountId) -> Seq<
    NominationView,
> {
    let backing = backers(nominations, validator, nominations.len() as int);
    ordered(backing, backing.len() as int)
}

/// Copies of the nominations that back `validator`, in their order.
fn collect_backers(nominations: &Vec<Nomination>, validator: &AccountId) -> (copies: Vec<Nomination>)
    ensures
        nomination_views(copies@) == backers(
            nomination_views(nominations@),
            *validator,
            nominations@.len() as int,
        ),
{
    let mut copies: Vec<Nomination> = Vec::new();
    let mut k: usize = 0;
    let ghost views = nomination_views(nominations@);
    assert(nomination_views(copies@) =~= backers(views, *validator, 0));
    while k < nominations.len()
        invariant
            k <= nominations@.len(),
            views == nomination_views(nominations@),
            nomination_views(copies@) == backers(views, *validator, k as int),
        decreases nominations@.len() - k,
    {
        let ghost before = nomination_views(copies@);
        if nominations[k].controller_account_id.is_some() && nominations[k].targets(validator) {
            copies.push(nominations[k].duplicate());
            assert(nomination_views(copies@) =~= before.push(views[k as int]));
        }
        k += 1;
    }
    copies
}

impl ValidatorSet {
    /// Gives each validator the nominations that back it, ordered by key, and marks
    /// it oversubscribed exactly if they are more than the payout cap. Nothing else
    /// changes.
    pub fn attach_nominations(
        &mut self,
        nominations: &Vec<Nomination>,
        max_nominator_rewarded_per_validator: u32,
    )
        requires
            distinct_accounts(old(self)@),
        ensures
            distinct_accounts(final(self)@),
            final(self)@.len() == old(self)@.len(),
            forall|i: int|
                0 <= i < old(self)@.len() ==> {
                    let before = old(self)@[i];
                    let after = #[trigger] final(self)@[i];
                    &&& after == (ValidatorDetails {
                        nominations: after.nominations,
                        oversubscribed: after.nominations@.len()
                            > max_nominator_rewarded_per_validator,
                        ..before
                    })
                    &&& nomination_views(after.nominations@) == ordered_backers(
                        nomination_views(nominations@),
                        before.account.id,
                    )
                },
    {
        let ghost start = self.validators@;
        let ghost views = nomination_views(nominations@);
        let mut i: usize = 0;
        while i < self.validators.len()
            invariant
                i <= start.len(),
                self.validators@.len() == start.len(),
                views == nomination_views(nominations@),
                distinct_accounts(start),
                forall|j: int| i <= j < start.len() ==> self.validators@[j] == start[j],
                forall|j: int|
                    0 <= j < i ==> {
                        let before = start[j];
                        let after = #[trigger] self.validators@[j];
                        &&& after == (ValidatorDetails {
                            nominations: after.nominations,
                            oversubscribed: after.nominations@.len()
                                > max_nominator_rewarded_per_validator,
                            ..before
                        })
                        &&& nomination_views(after.nominations@) == ordered_backers(
                            views,
                            before.account.id,
                        )
                    },
            decreases start.len() - i,
        {
            let id = self.validators[i].account.id;
            let copies = collect_backers(nominations, &id);
            let sorted = sort_nominations(copies);
            self.validators[i].oversubscribed = sorted.len()
                > max_nominator_rewarded_per_validator as usize;
            self.validators[i].nominations = sorted;
            i += 1;
        }
        proof {
            assert forall|a: int, b: int| 0 <= a < b < self.validators@.len() implies (
            #[trigger] self.validators@[a]).account.id != (#[trigger] self.validators@[b]).account.id by {
                assert(self.validators@[a].account.id == start[a].account.id);
                assert(self.validators@[b].account.id == start[b].account.id);
            }
        }
    }
}

/// The accounts of the validators that are active, or of those that are not.
pub open spec fn addresses(validators: Seq<ValidatorDetails>, active: bool) -> Set<AccountId> {
    Set::new(
        |id: AccountId|
            exists|i: int|
                0 <= i < validators.len() && (#[trigger] validators[i]).account.id == id
                    && validators[i].is_active == active,
    )
}

/// Whether `id` is among the first `upto` of `ids`.
pub open spec fn occurs_before(ids: Seq<AccountId>, upto: int, id: AccountId) -> bool {
    exists|p: int| 0 <= p < upto && p < ids.len() && #[trigger] ids[p] == id
}

proof fn lemma_first_occurrences(ids: Seq<AccountId>, upto: int)
    requires
        0 <= upto <= ids.len(),
    ensures
        forall|id: AccountId|
            #[trigger] first_occurrences(ids, upto).contains(id) <==> occurs_before(ids, upto, id),
    decreases upto,
{
    if upto > 0 {
        lemma_first_occurrences(ids, upto - 1);
        let before = first_occurrences(ids, upto - 1);
        let now = first_occurrences(ids, upto);
        let last = ids[upto - 1];
        assert forall|id: AccountId| #[trigger] now.contains(id) <==> occurs_before(ids, upto, id) by {
            if now.contains(id) {
                let i = choose|i: int| 0 <= i < now.len() && now[i] == id;
                if before.contains(last) || i < before.len() {
                    assert(before.contains(id)) by {
                        if !before.contains(last) {
                            assert(before[i] == id);
                        }
                    }
                    assert(occurs_before(ids, upto - 1, id));
                    let p = choose|p: int| 0 <= p < upto - 1 && p < ids.len() && ids[p] == id;
                    assert(ids[p] == id);
                } else {
                    assert(ids[upto - 1] == id);
                }
            }
            if occurs_before(ids, upto, id) {
                let p = choose|p: int| 0 <= p < upto && p < ids.len() && ids[p] == id;
                if p < upto - 1 {
                    assert(occurs_before(ids, upto - 1, id));
                    assert(before.contains(id));
                    let i = choose|i: int| 0 <= i < before.len() && before[i] == id;
                    if !before.contains(last) {
                        assert(now[i] == id);
                    }
                } else {
                    assert(id == last);
                    if !before.contains(last) {
                        assert(now[before.len() as int] == last);
                    }
                }
            }
        }
    }
}

/// The active and the inactive accounts of the validators of a block have no
/// account in common, and together they are the accounts that have declared
/// their intention to validate.
pub proof fn lemma_validator_set_partition(
    active_ids: Seq<AccountId>,
    intention_ids: Seq<AccountId>,
    validators: Seq<ValidatorDetails>,
)
    requires
        distinct_accounts(validators),
        accounts_of(validators) == first_occurrences(intention_ids, intention_ids.len() as int),
        forall|i: int|
            0 <= i < validators.len() ==> (#[trigger] validators[i]).is_active
                == active_ids.contains(validators[i].account.id),
    ensures
        addresses(validators, true).disjoint(addresses(validators, false)),
        addresses(validators, true).union(addresses(validators, false)) == intention_ids.to_set(),
        forall|id: AccountId|
            addresses(validators, true).contains(id) <==> intention_ids.contains(id)
                && active_ids.contains(id),
{
    lemma_first_occurrences(intention_ids, intention_ids.len() as int);
    let ids = accounts_of(validators);
    assert forall|id: AccountId| #[trigger] ids.contains(id) <==> intention_ids.contains(id) by {
        if intention_ids.contains(id) {
            let p = choose|p: int| 0 <= p < intention_ids.len() && intention_ids[p] == id;
            assert(occurs_before(intention_ids, intention_ids.len() as int, id));
        }
        if ids.contains(id) {
            assert(occurs_before(intention_ids, intention_ids.len() as int, id));
        }
    }
    assert forall|id: AccountId|
        addresses(validators, true).union(addresses(validators, false)).contains(id)
            <==> intention_ids.to_set().contains(id) by {
        if intention_ids.contains(id) {
            assert(ids.contains(id));
            let i = choose|i: int| 0 <= i < ids.len() && ids[i] == id;
            assert(validators[i].account.id == id);
        }
        if addresses(validators, true).contains(id) || addresses(validators, false).contains(id) {
            let i = choose|i: int| 0 <= i < validators.len() && validators[i].account.id == id;
            assert(ids[i] == id);
            assert(ids.contains(id));
        }
    }
    assert(addresses(validators, true).union(addresses(validators, false))
        =~= intention_ids.to_set());
    assert forall|id: AccountId|
        !(addresses(validators, true).contains(id) && addresses(validators, false).contains(
            id,
        )) by {
        if addresses(validators, true).contains(id) && addresses(validators, false).contains(id) {
            let i = choose|i: int|
                0 <= i < validators.len() && validators[i].account.id == id
                    && validators[i].is_active;
            let j = choose|j: int|
                0 <= j < validators.len() && validators[j].account.id == id
                    && !validators[j].is_active;
            if i < j {
                assert(validators[i].account.id != validators[j].account.id);
            } else if j < i {
                assert(validators[j].account.id != validators[i].account.id);
            }
        }
    }
    assert forall|id: AccountId|
        addresses(validators, true).contains(id) <==> intention_ids.contains(id)
            && active_ids.contains(id) by {
        if intention_ids.contains(id) && active_ids.contains(id) {
            assert(ids.contains(id));
            let i = choose|i: int| 0 <= i < ids.len() && ids[i] == id;
            assert(validators[i].account.id == id);
        }
        if addresses(validators, true).contains(id) {
            let i = choose|i: int|
                0 <= i < validators.len() && validators[i].account.id == id
                    && validators[i].is_active;
            assert(ids[i] == id);
            assert(ids.contains(id));
        }
    }
}

} // verus!
