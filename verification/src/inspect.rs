//! The inspectors of the notification generator: what each of them looks at in
//! a block or in the validator list, and what it queues.
use crate::account::AccountId;
use crate::app_event::{ChilledEvent, ValidatorOfflineEvent};
use crate::notification::{
    event_notifications, generate_notifications, Block, Notification, NotificationTypeCode,
    UserNotificationRule,
};
use crate::validator::{same_text, texts_equal, Nomination};
use crate::validator_details::ValidatorDetails;
use vstd::prelude::*;

verus! {

/// The inspectors of a block, in the order in which they run.
#[derive(Clone, Copy, Debug, PartialEq, Eq, Structural)]
pub enum BlockInspector {
    Authorship,
    OfflineOffences,
    Chillings,
    ValidateExtrinsics,
    SetControllerExtrinsics,
    PayoutStakersExtrinsics,
}

impl BlockInspector {
    /// The notification type whose rules the inspector looks up.
    pub open spec fn spec_type_code(self) -> NotificationTypeCode {
        match self {
            BlockInspector::Authorship => NotificationTypeCode::ChainValidatorBlockAuthorship,
            BlockInspector::OfflineOffences => NotificationTypeCode::ChainValidatorOfflineOffence,
            BlockInspector::Chillings => NotificationTypeCode::ChainValidatorChilled,
            BlockInspector::ValidateExtrinsics => NotificationTypeCode::ChainValidateExtrinsic,
            BlockInspector::SetControllerExtrinsics => NotificationTypeCode::ChainValidatorSetController,
            BlockInspector::PayoutStakersExtrinsics => NotificationTypeCode::ChainValidatorPayoutStakers,
        }
    }

    /// The notification type whose rules the inspector looks up.
    #[verifier::when_used_as_spec(spec_type_code)]
    pub fn type_code(self) -> (code: NotificationTypeCode)
        ensures
            code == self.spec_type_code(),
    {
        match self {
            BlockInspector::Authorship => NotificationTypeCode::ChainValidatorBlockAuthorship,
            BlockInspector::OfflineOffences => NotificationTypeCode::ChainValidatorOfflineOffence,
            BlockInspector::Chillings => NotificationTypeCode::ChainValidatorChilled,
            BlockInspector::ValidateExtrinsics => NotificationTypeCode::ChainValidateExtrinsic,
            BlockInspector::SetControllerExtrinsics => NotificationTypeCode::ChainValidatorSetController,
            BlockInspector::PayoutStakersExtrinsics => NotificationTypeCode::ChainValidatorPayoutStakers,
        }
    }

    /// The inspector that runs after this one, if any.
    pub fn next(self) -> (next: Option<BlockInspector>)
        ensures
            next == match self {
                BlockInspector::Authorship => Some(BlockInspector::OfflineOffences),
                BlockInspector::OfflineOffences => Some(BlockInspector::Chillings),
                BlockInspector::Chillings => Some(BlockInspector::ValidateExtrinsics),
                BlockInspector::ValidateExtrinsics => Some(BlockInspector::SetControllerExtrinsics),
                BlockInspector::SetControllerExtrinsics => Some(
                    BlockInspector::PayoutStakersExtrinsics,
                ),
                BlockInspector::PayoutStakersExtrinsics => None,
            },
    {
        match self {
            BlockInspector::Authorship => Some(BlockInspector::OfflineOffences),
            BlockInspector::OfflineOffences => Some(BlockInspector::Chillings),
            BlockInspector::Chillings => Some(BlockInspector::ValidateExtrinsics),
            BlockInspector::ValidateExtrinsics => Some(BlockInspector::SetControllerExtrinsics),
            BlockInspector::SetControllerExtrinsics => Some(BlockInspector::PayoutStakersExtrinsics),
            BlockInspector::PayoutStakersExtrinsics => None,
        }
    }
}

/// What happens after one inspector of a block has run.
#[derive(Clone, Copy, Debug, PartialEq, Eq, Structural)]
pub enum InspectionStep {
    /// Run this inspector next.
    Run(BlockInspector),
    /// All inspectors have run: persist the block as the last one inspected.
    SaveState,
    /// An inspector failed: the block is not inspected, and neither are the
    /// blocks after it.
    Abandon,
}

/// The first step of the inspection of a block: with no row for the block there
/// is nothing to inspect, and the block counts as inspected.
pub fn inspect_block(block_found: bool) -> (step: InspectionStep)
    ensures
        step == if block_found {
            InspectionStep::Run(BlockInspector::Authorship)
        } else {
            InspectionStep::SaveState
        },
{
    if block_found {
        InspectionStep::Run(BlockInspector::Authorship)
    } else {
        InspectionStep::SaveState
    }
}

/// The step after `inspector` has run with the given outcome: a failure is not
/// passed over.
pub fn after_inspector(inspector: BlockInspector, succeeded: bool) -> (step: InspectionStep)
    ensures
        step == if !succeeded {
            InspectionStep::Abandon
        } else {
            match inspector {
                BlockInspector::Authorship => InspectionStep::Run(BlockInspector::OfflineOffences),
                BlockInspector::OfflineOffences => InspectionStep::Run(BlockInspector::Chillings),
                BlockInspector::Chillings => InspectionStep::Run(BlockInspector::ValidateExtrinsics),
                BlockInspector::ValidateExtrinsics => InspectionStep::Run(
                    BlockInspector::SetControllerExtrinsics,
                ),
                BlockInspector::SetControllerExtrinsics => InspectionStep::Run(
                    BlockInspector::PayoutStakersExtrinsics,
                ),
                BlockInspector::PayoutStakersExtrinsics => InspectionStep::SaveState,
            }
        },
{
    if !succeeded {
        return InspectionStep::Abandon;
    }
    match inspector.next() {
        Some(next) => InspectionStep::Run(next),
        None => InspectionStep::SaveState,
    }
}

/// The notifications for the authorship of a block, given the rules that watch
/// its author: none where the block has no author.
pub fn inspect_block_authorship(network_id: u32, block: &Block, rules: &Vec<UserNotificationRule>) -> (queued:
    Vec<Notification>)
    ensures
        queued@ == match block.author_account_id {
            Some(author) => event_notifications(
                network_id,
                *block,
                None,
                None,
                rules@,
                author,
                rules@.len() as int,
            ),
            None => Seq::empty(),
        },
{
    match &block.author_account_id {
        Some(author) => generate_notifications(network_id, block, (None, None), rules, author),
        None => Vec::new(),
    }
}

/// The notifications for one offline offence in a block, given the rules that
/// watch the validator.
pub fn inspect_offline_offence(
    network_id: u32,
    block: &Block,
    event: &ValidatorOfflineEvent,
    rules: &Vec<UserNotificationRule>,
) -> (queued: Vec<Notification>)
    ensures
        queued@ == event_notifications(
            network_id,
            *block,
            None,
            event.event_index,
            rules@,
            event.validator_account_id,
            rules@.len() as int,
        ),
{
    generate_notifications(
        network_id,
        block,
        (None, event.event_index),
        rules,
        &event.validator_account_id,
    )
}

/// The notifications for one chilling in a block, given the rules that watch the stash.
pub fn inspect_chilling(
    network_id: u32,
    block: &Block,
    event: &ChilledEvent,
    rules: &Vec<UserNotificationRule>,
) -> (queued: Vec<Notification>)
    ensures
        queued@ == event_notifications(
            network_id,
            *block,
            event.extrinsic_index,
            Some(event.event_index),
            rules@,
            event.stash_account_id,
            rules@.len() as int,
        ),
{
    generate_notifications(
        network_id,
        block,
        (event.extrinsic_index, Some(event.event_index)),
        rules,
        &event.stash_account_id,
    )
}

/// The notifications for one extrinsic of a block, given the rules that watch
/// the account that made it.
pub fn inspect_extrinsic(
    network_id: u32,
    block: &Block,
    extrinsic_index: u32,
    account_id: &AccountId,
    rules: &Vec<UserNotificationRule>,
) -> (queued: Vec<Notification>)
    ensures
        queued@ == event_notifications(
            network_id,
            *block,
            Some(extrinsic_index),
            None,
            rules@,
            *account_id,
            rules@.len() as int,
        ),
{
    generate_notifications(network_id, block, (Some(extrinsic_index), None), rules, account_id)
}

/// Whether the payouts of the active era are looked at now: once enough of the
/// era has passed, and only for an era that was not looked at before.
pub fn is_unclaimed_payout_check_due(
    era_start_timestamp_millis: u64,
    now_millis: u64,
    check_delay_hours: u32,
    last_active_era_index: u32,
    active_era_index: u32,
) -> (due: bool)
    ensures
        due == (now_millis >= era_start_timestamp_millis && (now_millis
            - era_start_timestamp_millis) / 3_600_000 >= check_delay_hours
            && last_active_era_index != active_era_index),
{
    if now_millis < era_start_timestamp_millis {
        return false;
    }
    let elapsed_hours = (now_millis - era_start_timestamp_millis) / 3_600_000;
    elapsed_hours >= check_delay_hours as u64 && last_active_era_index != active_era_index
}

/// The positions, among the first `upto` validators, of those that have payouts
/// to claim.
pub open spec fn with_unclaimed_payouts(validators: Seq<ValidatorDetails>, upto: int) -> Seq<usize>
    decreases upto,
{
    if upto <= 0 || upto > validators.len() {
        Seq::empty()
    } else if validators[upto - 1].unclaimed_era_indices@.len() > 0 {
        with_unclaimed_payouts(validators, upto - 1).push((upto - 1) as usize)
    } else {
        with_unclaimed_payouts(validators, upto - 1)
    }
}

/// The positions of the validators that have payouts to claim, in their order.
pub fn inspect_unclaimed_payouts(validators: &Vec<ValidatorDetails>) -> (positions: Vec<usize>)
    ensures
        positions@ == with_unclaimed_payouts(validators@, validators@.len() as int),
{
    let mut positions: Vec<usize> = Vec::new();
    let mut i: usize = 0;
    while i < validators.len()
        invariant
            i <= validators@.len(),
            positions@ == with_unclaimed_payouts(validators@, i as int),
        decreases validators@.len() - i,
    {
        if validators[i].unclaimed_era_indices.len() > 0 {
            positions.push(i);
        }
        i += 1;
    }
    positions
}

/// A change in what the validator programme records of a validator.
#[derive(Debug)]
pub enum OneKVChange {
    BinaryVersion { previous: Option<String>, current: Option<String> },
    Rank { previous: Option<u64>, current: Option<u64> },
    Location { previous: Option<String>, current: Option<String> },
    Validity { is_valid: Option<bool> },
}

impl OneKVChange {
    /// The notification type that tells of the change.
    pub open spec fn spec_type_code(&self) -> NotificationTypeCode {
        match self {
            OneKVChange::BinaryVersion { .. } => NotificationTypeCode::OneKVValidatorBinaryVersionChange,
            OneKVChange::Rank { .. } => NotificationTypeCode::OneKVValidatorRankChange,
            OneKVChange::Location { .. } => NotificationTypeCode::OneKVValidatorLocationChange,
            OneKVChange::Validity { .. } => NotificationTypeCode::OneKVValidatorValidityChange,
        }
    }

    /// The notification type that tells of the change.
    #[verifier::when_used_as_spec(spec_type_code)]
    pub fn type_code(&self) -> (code: NotificationTypeCode)
        ensures
            code == self.spec_type_code(),
    {
        match self {
            OneKVChange::BinaryVersion { .. } => NotificationTypeCode::OneKVValidatorBinaryVersionChange,
            OneKVChange::Rank { .. } => NotificationTypeCode::OneKVValidatorRankChange,
            OneKVChange::Location { .. } => NotificationTypeCode::OneKVValidatorLocationChange,
            OneKVChange::Validity { .. } => NotificationTypeCode::OneKVValidatorValidityChange,
        }
    }
}

/// The change of location between two states of a validator, if there is one.
pub fn inspect_onekv_location_change(last: &ValidatorDetails, current: &ValidatorDetails) -> (change:
    Option<OneKVChange>)
    ensures
        same_text(last.onekv_location, current.onekv_location) ==> change is None,
        !same_text(last.onekv_location, current.onekv_location) ==> (change matches Some(
            OneKVChange::Location { previous, current: now },
        ) && previous == last.onekv_location && now == current.onekv_location),
{
    if texts_equal(&last.onekv_location, &current.onekv_location) {
        None
    } else {
        Some(
            OneKVChange::Location {
                previous: crate::validator::copy_text(&last.onekv_location),
                current: crate::validator::copy_text(&current.onekv_location),
            },
        )
    }
}

/// Whether `changes` are the changes between two states of a validator in what
/// the validator programme records of it: the binary version, the rank, the
/// location and the validity, in that order, each only if it differs. A validator
/// that is not in the programme has none.
pub open spec fn onekv_changes(last: ValidatorDetails, current: ValidatorDetails, changes: Seq<OneKVChange>) -> bool {
    let enrolled = current.onekv_candidate_record_id is Some;
    let version = enrolled && !same_text(last.onekv_binary_version, current.onekv_binary_version);
    let rank = enrolled && last.onekv_rank != current.onekv_rank;
    let location = enrolled && !same_text(last.onekv_location, current.onekv_location);
    let validity = enrolled && last.onekv_is_valid != current.onekv_is_valid;
    let at_rank = if version { 1int } else { 0int };
    let at_location = at_rank + if rank { 1int } else { 0int };
    let at_validity = at_location + if location { 1int } else { 0int };
    &&& changes.len() == at_validity + if validity { 1int } else { 0int }
    &&& version ==> changes[0] == (OneKVChange::BinaryVersion {
        previous: last.onekv_binary_version,
        current: current.onekv_binary_version,
    })
    &&& rank ==> changes[at_rank] == (OneKVChange::Rank {
        previous: last.onekv_rank,
        current: current.onekv_rank,
    })
    &&& location ==> changes[at_location] == (OneKVChange::Location {
        previous: last.onekv_location,
        current: current.onekv_location,
    })
    &&& validity ==> changes[at_validity] == (OneKVChange::Validity {
        is_valid: current.onekv_is_valid,
    })
}

/// The changes between two states of a validator in what the validator
/// programme records of it.
pub fn inspect_onekv_changes(last: &ValidatorDetails, current: &ValidatorDetails) -> (changes: Vec<
    OneKVChange,
>)
    ensures
        onekv_changes(*last, *current, changes@),
{
    let mut changes: Vec<OneKVChange> = Vec::new();
    if current.onekv_candidate_record_id.is_none() {
        return changes;
    }
    if !texts_equal(&last.onekv_binary_version, &current.onekv_binary_version) {
        changes.push(
            OneKVChange::BinaryVersion {
                previous: crate::validator::copy_text(&last.onekv_binary_version),
                current: crate::validator::copy_text(&current.onekv_binary_version),
            },
        );
    }
    if last.onekv_rank != current.onekv_rank {
        changes.push(OneKVChange::Rank { previous: last.onekv_rank, current: current.onekv_rank });
    }
    match inspect_onekv_location_change(last, current) {
        Some(change) => {
            changes.push(change);
        },
        None => {},
    }
    if last.onekv_is_valid != current.onekv_is_valid {
        changes.push(OneKVChange::Validity { is_valid: current.onekv_is_valid });
    }
    changes
}

/// The nominators of a list of nominations.
pub open spec fn nominators(nominations: Seq<Nomination>) -> Seq<AccountId> {
    Seq::new(nominations.len(), |i: int| nominations[i].nominator_account_id)
}

/// The nominators among the first `upto` of `these` that are not among `those`,
/// each once, in the order in which they first occur.
pub open spec fn only_in(these: Seq<AccountId>, those: Seq<AccountId>, upto: int) -> Seq<AccountId>
    decreases upto,
{
    if upto <= 0 || upto > these.len() {
        Seq::empty()
    } else {
        let before = only_in(these, those, upto - 1);
        let id = these[upto - 1];
        if those.contains(id) || before.contains(id) {
            before
        } else {
            before.push(id)
        }
    }
}

/// The nominators among the first `upto` of `these` that are among `those` too,
/// each once, in the order in which they first occur.
pub open spec fn in_both(these: Seq<AccountId>, those: Seq<AccountId>, upto: int) -> Seq<AccountId>
    decreases upto,
{
    if upto <= 0 || upto > these.len() {
        Seq::empty()
    } else {
        let before = in_both(these, those, upto - 1);
        let id = these[upto - 1];
        if !those.contains(id) || before.contains(id) {
            before
        } else {
            before.push(id)
        }
    }
}

/// How the nominators of a validator have changed.
#[derive(Debug)]
pub struct NominationChanges {
    /// Those that nominate now and did not before.
    pub new_nominator_ids: Vec<AccountId>,
    /// Those that nominated before and do not now.
    pub lost_nominator_ids: Vec<AccountId>,
    /// Those that nominated before and still do.
    pub renominator_ids: Vec<AccountId>,
}

/// Whether `id` is among `ids`.
fn holds(ids: &Vec<AccountId>, id: &AccountId) -> (found: bool)
    ensures
        found == ids@.contains(*id),
{
    let mut i: usize = 0;
    while i < ids.len()
        invariant
            i <= ids@.len(),
            forall|j: int| 0 <= j < i ==> ids@[j] != *id,
        decreases ids@.len() - i,
    {
        if ids[i].same(id) {
            assert(ids@[i as int].bytes =~= id.bytes);
            return true;
        }
        i += 1;
    }
    false
}

/// Whether the nominator `id` is among `nominations`.
fn nominates(nominations: &Vec<Nomination>, id: &AccountId) -> (found: bool)
    ensures
        found == nominators(nominations@).contains(*id),
{
    let mut i: usize = 0;
    while i < nominations.len()
        invariant
            i <= nominations@.len(),
            forall|j: int| 0 <= j < i ==> nominators(nominations@)[j] != *id,
        decreases nominations@.len() - i,
    {
        if nominations[i].nominator_account_id.same(id) {
            assert(nominations@[i as int].nominator_account_id.bytes =~= id.bytes);
            assert(nominators(nominations@)[i as int] == *id);
            return true;
        }
        i += 1;
    }
    false
}

/// Compares the nominators of two states of a validator.
pub fn inspect_nomination_changes(last: &Vec<Nomination>, current: &Vec<Nomination>) -> (changes:
    NominationChanges)
    ensures
        changes.new_nominator_ids@ == only_in(
            nominators(current@),
            nominators(last@),
            current@.len() as int,
        ),
        changes.lost_nominator_ids@ == only_in(
            nominators(last@),
            nominators(current@),
            last@.len() as int,
        ),
        changes.renominator_ids@ == in_both(
            nominators(current@),
            nominators(last@),
            current@.len() as int,
        ),
{
    let mut new_ids: Vec<AccountId> = Vec::new();
    let mut kept_ids: Vec<AccountId> = Vec::new();
    let mut i: usize = 0;
    while i < current.len()
        invariant
            i <= current@.len(),
            new_ids@ == only_in(nominators(current@), nominators(last@), i as int),
            kept_ids@ == in_both(nominators(current@), nominators(last@), i as int),
        decreases current@.len() - i,
    {
        let id = current[i].nominator_account_id;
        assert(nominators(current@)[i as int] == id);
        if nominates(last, &id) {
            if !holds(&kept_ids, &id) {
                kept_ids.push(id);
            }
        } else if !holds(&new_ids, &id) {
            new_ids.push(id);
        }
        i += 1;
    }
    let mut lost_ids: Vec<AccountId> = Vec::new();
    let mut j: usize = 0;
    while j < last.len()
        invariant
            j <= last@.len(),
            lost_ids@ == only_in(nominators(last@), nominators(current@), j as int),
        decreases last@.len() - j,
    {
        let id = last[j].nominator_account_id;
        assert(nominators(last@)[j as int] == id);
        if !nominates(current, &id) && !holds(&lost_ids, &id) {
            lost_ids.push(id);
        }
        j += 1;
    }
    NominationChanges {
        new_nominator_ids: new_ids,
        lost_nominator_ids: lost_ids,
        renominator_ids: kept_ids,
    }
}

} // verus!
