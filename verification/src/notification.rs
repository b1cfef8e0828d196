//! Notification rules, and the notifications that an event queues for them.
use crate::account::AccountId;
use vstd::prelude::*;
use vstd::string::*;

verus! {

/// How often a rule wants to hear of what it watches.
#[derive(Clone, Copy, Debug, PartialEq, Eq, Structural)]
pub enum NotificationPeriodType {
    Off,
    Immediate,
    Hour,
    Day,
    Epoch,
    Era,
}

/// What a rule watches.
#[derive(Clone, Copy, Debug, PartialEq, Eq, Structural)]
pub enum NotificationTypeCode {
    ChainValidateExtrinsic,
    ChainValidatorActive,
    ChainValidatorActiveNextSession,
    ChainValidatorBlockAuthorship,
    ChainValidatorChilled,
    ChainValidatorIdentityChanged,
    ChainValidatorInactive,
    ChainValidatorInactiveNextSession,
    ChainValidatorLostNomination,
    ChainValidatorNewNomination,
    ChainValidatorOfflineOffence,
    ChainValidatorPayoutStakers,
    ChainValidatorSessionKeysChanged,
    ChainValidatorSetController,
    ChainValidatorUnclaimedPayout,
    OneKVValidatorBinaryVersionChange,
    OneKVValidatorLocationChange,
    OneKVValidatorRankChange,
    OneKVValidatorValidityChange,
    DemocracyCancelled,
    DemocracyDelegated,
    DemocracyNotPassed,
    DemocracyPassed,
    DemocracyProposed,
    DemocracySeconded,
    DemocracyStarted,
    DemocracyUndelegated,
    DemocracyVoted,
}

impl NotificationTypeCode {
    /// The code by which the stores know the notification type.
    pub open spec fn code(self) -> Seq<char> {
        match self {
            NotificationTypeCode::ChainValidateExtrinsic => "chain_validate_extrinsic"@,
            NotificationTypeCode::ChainValidatorActive => "chain_validator_active"@,
            NotificationTypeCode::ChainValidatorActiveNextSession => "chain_validator_active_next_session"@,
            NotificationTypeCode::ChainValidatorBlockAuthorship => "chain_validator_block_authorship"@,
            NotificationTypeCode::ChainValidatorChilled => "chain_validator_chilled"@,
            NotificationTypeCode::ChainValidatorIdentityChanged => "chain_validator_identity_changed"@,
            NotificationTypeCode::ChainValidatorInactive => "chain_validator_inactive"@,
            NotificationTypeCode::ChainValidatorInactiveNextSession => "chain_validator_inactive_next_session"@,
            NotificationTypeCode::ChainValidatorLostNomination => "chain_validator_lost_nomination"@,
            NotificationTypeCode::ChainValidatorNewNomination => "chain_validator_new_nomination"@,
            NotificationTypeCode::ChainValidatorOfflineOffence => "chain_validator_offline_offence"@,
            NotificationTypeCode::ChainValidatorPayoutStakers => "chain_validator_payout_stakers"@,
            NotificationTypeCode::ChainValidatorSessionKeysChanged => "chain_validator_session_keys_changed"@,
            NotificationTypeCode::ChainValidatorSetController => "chain_validator_set_controller"@,
            NotificationTypeCode::ChainValidatorUnclaimedPayout => "chain_validator_unclaimed_payout"@,
            NotificationTypeCode::OneKVValidatorBinaryVersionChange => "onekv_validator_binary_version_change"@,
            NotificationTypeCode::OneKVValidatorLocationChange => "onekv_validator_location_change"@,
            NotificationTypeCode::OneKVValidatorRankChange => "onekv_validator_rank_change"@,
            NotificationTypeCode::OneKVValidatorValidityChange => "onekv_validator_validity_change"@,
            NotificationTypeCode::DemocracyCancelled => "democracy_cancelled"@,
            NotificationTypeCode::DemocracyDelegated => "democracy_delegated"@,
            NotificationTypeCode::DemocracyNotPassed => "democracy_not_passed"@,
            NotificationTypeCode::DemocracyPassed => "democracy_passed"@,
            NotificationTypeCode::DemocracyProposed => "democracy_proposed"@,
            NotificationTypeCode::DemocracySeconded => "democracy_seconded"@,
            NotificationTypeCode::DemocracyStarted => "democracy_started"@,
            NotificationTypeCode::DemocracyUndelegated => "democracy_undelegated"@,
            NotificationTypeCode::DemocracyVoted => "democracy_voted"@,
        }
    }

    /// The code by which the stores know the notification type.
    pub fn to_string(&self) -> (text: String)
        ensures
            text@ == self.code(),
    {
        let code = match self {
            NotificationTypeCode::ChainValidateExtrinsic => "chain_validate_extrinsic",
            NotificationTypeCode::ChainValidatorActive => "chain_validator_active",
            NotificationTypeCode::ChainValidatorActiveNextSession => "chain_validator_active_next_session",
            NotificationTypeCode::ChainValidatorBlockAuthorship => "chain_validator_block_authorship",
            NotificationTypeCode::ChainValidatorChilled => "chain_validator_chilled",
            NotificationTypeCode::ChainValidatorIdentityChanged => "chain_validator_identity_changed",
            NotificationTypeCode::ChainValidatorInactive => "chain_validator_inactive",
            NotificationTypeCode::ChainValidatorInactiveNextSession => "chain_validator_inactive_next_session",
            NotificationTypeCode::ChainValidatorLostNomination => "chain_validator_lost_nomination",
            NotificationTypeCode::ChainValidatorNewNomination => "chain_validator_new_nomination",
            NotificationTypeCode::ChainValidatorOfflineOffence => "chain_validator_offline_offence",
            NotificationTypeCode::ChainValidatorPayoutStakers => "chain_validator_payout_stakers",
            NotificationTypeCode::ChainValidatorSessionKeysChanged => "chain_validator_session_keys_changed",
            NotificationTypeCode::ChainValidatorSetController => "chain_validator_set_controller",
            NotificationTypeCode::ChainValidatorUnclaimedPayout => "chain_validator_unclaimed_payout",
            NotificationTypeCode::OneKVValidatorBinaryVersionChange => "onekv_validator_binary_version_change",
            NotificationTypeCode::OneKVValidatorLocationChange => "onekv_validator_location_change",
            NotificationTypeCode::OneKVValidatorRankChange => "onekv_validator_rank_change",
            NotificationTypeCode::OneKVValidatorValidityChange => "onekv_validator_validity_change",
            NotificationTypeCode::DemocracyCancelled => "democracy_cancelled",
            NotificationTypeCode::DemocracyDelegated => "democracy_delegated",
            NotificationTypeCode::DemocracyNotPassed => "democracy_not_passed",
            NotificationTypeCode::DemocracyPassed => "democracy_passed",
            NotificationTypeCode::DemocracyProposed => "democracy_proposed",
            NotificationTypeCode::DemocracySeconded => "democracy_seconded",
            NotificationTypeCode::DemocracyStarted => "democracy_started",
            NotificationTypeCode::DemocracyUndelegated => "democracy_undelegated",
            NotificationTypeCode::DemocracyVoted => "democracy_voted",
        };
        String::from_str(code)
    }
}

/// A block as the relational store keeps it.
#[derive(Debug)]
pub struct Block {
    pub hash: String,
    pub number: u64,
    pub timestamp: Option<u64>,
    pub author_account_id: Option<AccountId>,
    pub parent_hash: String,
    pub state_root: String,
    pub extrinsics_root: String,
}

/// Where a user wants to be told: a channel and the address on it.
#[derive(Debug)]
pub struct UserNotificationChannel {
    pub id: u32,
    pub user_id: u32,
    pub channel_code: String,
    pub target: String,
}

/// What a user wants to be told of, how often and where.
#[derive(Debug)]
pub struct UserNotificationRule {
    pub id: u32,
    pub user_id: u32,
    pub notification_type_code: String,
    pub validator_account_id: Option<AccountId>,
    pub period_type: NotificationPeriodType,
    pub period: u16,
    pub notification_channels: Vec<UserNotificationChannel>,
}

/// A notification in the queue.
#[derive(Debug)]
pub struct Notification {
    pub id: u32,
    pub user_id: u32,
    pub user_notification_rule_id: u32,
    pub network_id: u32,
    pub period_type: NotificationPeriodType,
    pub period: u16,
    pub validator_account_id: AccountId,
    pub notification_type_code: String,
    pub parameter_type_id: Option<u32>,
    pub parameter_value: Option<String>,
    pub block_hash: Option<String>,
    pub block_number: Option<u64>,
    pub block_timestamp: Option<u64>,
    pub extrinsic_index: Option<u32>,
    pub event_index: Option<u32>,
    pub user_notification_channel_id: u32,
    pub notification_channel_code: String,
    pub notification_target: String,
    pub log: Option<String>,
    pub created_at: Option<u64>,
    pub sent_at: Option<u64>,
    pub delivered_at: Option<u64>,
    pub read_at: Option<u64>,
}

/// The notification that an event in `block` about `validator` queues for one
/// channel of a rule. It has no identifier and no time of its own yet.
pub open spec fn notification_for(
    network_id: u32,
    block: Block,
    extrinsic_index: Option<u32>,
    event_index: Option<u32>,
    rule: UserNotificationRule,
    channel: UserNotificationChannel,
    validator: AccountId,
) -> Notification {
    Notification {
        id: 0,
        user_id: rule.user_id,
        user_notification_rule_id: rule.id,
        network_id,
        period_type: rule.period_type,
        period: rule.period,
        validator_account_id: validator,
        notification_type_code: rule.notification_type_code,
        parameter_type_id: None,
        parameter_value: None,
        block_hash: Some(block.hash),
        block_number: Some(block.number),
        block_timestamp: block.timestamp,
        extrinsic_index,
        event_index,
        user_notification_channel_id: channel.id,
        notification_channel_code: channel.channel_code,
        notification_target: channel.target,
        log: None,
        created_at: None,
        sent_at: None,
        delivered_at: None,
        read_at: None,
    }
}

/// The notifications for the first `upto` channels of a rule, in their order.
pub open spec fn rule_notifications(
    network_id: u32,
    block: Block,
    extrinsic_index: Option<u32>,
    event_index: Option<u32>,
    rule: UserNotificationRule,
    validator: AccountId,
    upto: int,
) -> Seq<Notification>
    decreases upto,
{
    if upto <= 0 || upto > rule.notification_channels@.len() {
        Seq::empty()
    } else {
        rule_notifications(
            network_id,
            block,
            extrinsic_index,
            event_index,
            rule,
            validator,
            upto - 1,
        ).push(
            notification_for(
                network_id,
                block,
                extrinsic_index,
                event_index,
                rule,
                rule.notification_channels@[upto - 1],
                validator,
            ),
        )
    }
}

/// The notifications that one event queues for the first `upto` rules: for each
/// rule that is not switched off, in their order, one for each of its channels.
pub open spec fn event_notifications(
    network_id: u32,
    block: Block,
    extrinsic_index: Option<u32>,
    event_index: Option<u32>,
    rules: Seq<UserNotificationRule>,
    validator: AccountId,
    upto: int,
) -> Seq<Notification>
    decreases upto,
{
    if upto <= 0 || upto > rules.len() {
        Seq::empty()
    } else {
        let before = event_notifications(
            network_id,
            block,
            extrinsic_index,
            event_index,
            rules,
            validator,
            upto - 1,
        );
        let rule = rules[upto - 1];
        if rule.period_type is Off {
            before
        } else {
            before + rule_notifications(
                network_id,
                block,
                extrinsic_index,
                event_index,
                rule,
                validator,
                rule.notification_channels@.len() as int,
            )
        }
    }
}

/// Queues the notifications of one event about `validator` in `block`: for each
/// of the rules that is not switched off, one for each of its channels.
pub fn generate_notifications(
    network_id: u32,
    block: &Block,
    indices: (Option<u32>, Option<u32>),
    rules: &Vec<UserNotificationRule>,
    validator_account_id: &AccountId,
) -> (queued: Vec<Notification>)
    ensures
        queued@ == event_notifications(
            network_id,
            *block,
            indices.0,
            indices.1,
            rules@,
            *validator_account_id,
            rules@.len() as int,
        ),
{
    let mut queued: Vec<Notification> = Vec::new();
    let mut r: usize = 0;
    while r < rules.len()
        invariant
            r <= rules@.len(),
            queued@ == event_notifications(
                network_id,
                *block,
                indices.0,
                indices.1,
                rules@,
                *validator_account_id,
                r as int,
            ),
        decreases rules@.len() - r,
    {
        let rule = &rules[r];
        let ghost before = queued@;
        if !matches!(rule.period_type, NotificationPeriodType::Off) {
            let mut c: usize = 0;
            assert(queued@ =~= before + rule_notifications(
                network_id,
                *block,
                indices.0,
                indices.1,
                *rule,
                *validator_account_id,
                0,
            ));
            while c < rule.notification_channels.len()
                invariant
                    c <= rule.notification_channels@.len(),
                    queued@ == before + rule_notifications(
                        network_id,
                        *block,
                        indices.0,
                        indices.1,
                        *rule,
                        *validator_account_id,
                        c as int,
                    ),
                decreases rule.notification_channels@.len() - c,
            {
                let channel = &rule.notification_channels[c];
                let notification = Notification {
                    id: 0,
                    user_id: rule.user_id,
                    user_notification_rule_id: rule.id,
                    network_id,
                    period_type: rule.period_type,
                    period: rule.period,
                    validator_account_id: *validator_account_id,
                    notification_type_code: rule.notification_type_code.clone(),
                    parameter_type_id: None,
                    parameter_value: None,
                    block_hash: Some(block.hash.clone()),
                    block_number: Some(block.number),
                    block_timestamp: block.timestamp,
                    extrinsic_index: indices.0,
                    event_index: indices.1,
                    user_notification_channel_id: channel.id,
                    notification_channel_code: channel.channel_code.clone(),
                    notification_target: channel.target.clone(),
                    log: None,
                    created_at: None,
                    sent_at: None,
                    delivered_at: None,
                    read_at: None,
                };
                queued.push(notification);
                assert(queued@ =~= before + rule_notifications(
                    network_id,
                    *block,
                    indices.0,
                    indices.1,
                    *rule,
                    *validator_account_id,
                    c + 1,
                ));
                c += 1;
            }
        }
        r += 1;
    }
    queued
}

/// How many channels the first `upto` rules have that are not switched off.
pub open spec fn open_channels(rules: Seq<UserNotificationRule>, upto: int) -> nat
    decreases upto,
{
    if upto <= 0 || upto > rules.len() {
        0
    } else if rules[upto - 1].period_type is Off {
        open_channels(rules, upto - 1)
    } else {
        open_channels(rules, upto - 1) + rules[upto - 1].notification_channels@.len()
    }
}

proof fn lemma_rule_notifications_len(
    network_id: u32,
    block: Block,
    extrinsic_index: Option<u32>,
    event_index: Option<u32>,
    rule: UserNotificationRule,
    validator: AccountId,
    upto: int,
)
    requires
        0 <= upto <= rule.notification_channels@.len(),
    ensures
        rule_notifications(network_id, block, extrinsic_index, event_index, rule, validator, upto).len()
            == upto,
        forall|i: int|
            0 <= i < upto ==> #[trigger] rule_notifications(
                network_id,
                block,
                extrinsic_index,
                event_index,
                rule,
                validator,
                upto,
            )[i] == notification_for(
                network_id,
                block,
                extrinsic_index,
                event_index,
                rule,
                rule.notification_channels@[i],
                validator,
            ),
    decreases upto,
{
    if upto > 0 {
        lemma_rule_notifications_len(
            network_id,
            block,
            extrinsic_index,
            event_index,
            rule,
            validator,
            upto - 1,
        );
    }
}

/// An event queues one notification for each channel of each rule that is not
/// switched off, and none for a rule that is: whatever the rules, there are as
/// many notifications as such channels, and none carries the period type `Off`.
pub proof fn lemma_period_gating(
    network_id: u32,
    block: Block,
    extrinsic_index: Option<u32>,
    event_index: Option<u32>,
    rules: Seq<UserNotificationRule>,
    validator: AccountId,
    upto: int,
)
    requires
        0 <= upto <= rules.len(),
    ensures
        event_notifications(network_id, block, extrinsic_index, event_index, rules, validator, upto).len()
            == open_channels(rules, upto),
        forall|i: int|
            0 <= i < event_notifications(
                network_id,
                block,
                extrinsic_index,
                event_index,
                rules,
                validator,
                upto,
            ).len() ==> !((#[trigger] event_notifications(
                network_id,
                block,
                extrinsic_index,
                event_index,
                rules,
                validator,
                upto,
            )[i]).period_type is Off),
    decreases upto,
{
    if upto > 0 {
        lemma_period_gating(
            network_id,
            block,
            extrinsic_index,
            event_index,
            rules,
            validator,
            upto - 1,
        );
        let rule = rules[upto - 1];
        lemma_rule_notifications_len(
            network_id,
            block,
            extrinsic_index,
            event_index,
            rule,
            validator,
            rule.notification_channels@.len() as int,
        );
    }
}

} // verus!
