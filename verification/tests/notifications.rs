use subvt::account::AccountId;
use subvt::app_event::{ChilledEvent, ValidatorOfflineEvent};
use subvt::cursor::Cursor;
use subvt::event::{
    process_democracy_event, process_event, update_event_nesting_indices, AccountVote,
    Conviction, DemocracyColumns, DemocracyEvent, EventStep, NestingUpdate, Pallet, PalletEvent,
    SubstrateEvent, Vote, VoteThreshold,
};
use subvt::inspect::{
    after_inspector, inspect_block, inspect_block_authorship, inspect_chilling,
    inspect_extrinsic, inspect_nomination_changes, inspect_offline_offence,
    inspect_onekv_changes, inspect_onekv_location_change, inspect_unclaimed_payouts,
    is_unclaimed_payout_check_due, BlockInspector, InspectionStep, OneKVChange,
};
use subvt::notification::{
    generate_notifications, Block, Notification, NotificationPeriodType, NotificationTypeCode,
    UserNotificationChannel, UserNotificationRule,
};
use subvt::period::{coalesce, due, ticks_at, Tick};
use subvt::validator::{Nomination, Stake};
use subvt::validator_details::ValidatorDetails;

fn account(n: u8) -> AccountId {
    AccountId::new([n; 32])
}

fn block(number: u64) -> Block {
    Block {
        hash: format!("0xhash{}", number),
        number,
        timestamp: Some(1_600_000_000_000),
        author_account_id: Some(account(1)),
        parent_hash: "0xparent".to_string(),
        state_root: "0xstate".to_string(),
        extrinsics_root: "0xextrinsics".to_string(),
    }
}

fn channel(id: u32, user_id: u32) -> UserNotificationChannel {
    UserNotificationChannel {
        id,
        user_id,
        channel_code: "telegram".to_string(),
        target: format!("chat{}", id),
    }
}

fn rule(id: u32, period_type: NotificationPeriodType, channels: Vec<u32>) -> UserNotificationRule {
    UserNotificationRule {
        id,
        user_id: 100 + id,
        notification_type_code: NotificationTypeCode::ChainValidatorOfflineOffence.to_string(),
        validator_account_id: Some(account(1)),
        period_type,
        period: 1,
        notification_channels: channels.into_iter().map(|c| channel(c, 100 + id)).collect(),
    }
}

#[test]
fn immediate_rule_gets_one_notification_for_the_offence() {
    let v1 = account(1);
    let event = ValidatorOfflineEvent {
        id: 1,
        block_hash: "0xhash500".to_string(),
        event_index: Some(3),
        validator_account_id: v1,
    };
    let rules = vec![rule(1, NotificationPeriodType::Immediate, vec![10])];
    let queued = inspect_offline_offence(2, &block(500), &event, &rules);
    assert_eq!(queued.len(), 1);
    let notification = &queued[0];
    assert_eq!(notification.validator_account_id, v1);
    assert_eq!(notification.block_number, Some(500));
    assert_eq!(notification.block_hash, Some("0xhash500".to_string()));
    assert_eq!(notification.block_timestamp, Some(1_600_000_000_000));
    assert_eq!(notification.event_index, Some(3));
    assert_eq!(notification.extrinsic_index, None);
    assert_eq!(notification.network_id, 2);
    assert_eq!(notification.user_id, 101);
    assert_eq!(notification.user_notification_rule_id, 1);
    assert_eq!(notification.user_notification_channel_id, 10);
    assert_eq!(notification.notification_channel_code, "telegram");
    assert_eq!(notification.notification_target, "chat10");
    assert_eq!(notification.notification_type_code, "chain_validator_offline_offence");
    assert_eq!(notification.period_type, NotificationPeriodType::Immediate);
    assert_eq!(notification.id, 0);
    assert!(notification.sent_at.is_none());
}

#[test]
fn rule_that_is_off_gets_nothing() {
    let rules = vec![
        rule(1, NotificationPeriodType::Off, vec![10, 11]),
        rule(2, NotificationPeriodType::Hour, vec![20, 21]),
        rule(3, NotificationPeriodType::Off, vec![30]),
        rule(4, NotificationPeriodType::Day, vec![]),
        rule(5, NotificationPeriodType::Immediate, vec![50]),
    ];
    let queued = generate_notifications(1, &block(5), (Some(2), None), &rules, &account(1));
    let channels: Vec<u32> = queued.iter().map(|n| n.user_notification_channel_id).collect();
    assert_eq!(channels, vec![20, 21, 50]);
    assert!(queued.iter().all(|n| n.period_type != NotificationPeriodType::Off));
    assert_eq!(queued[0].extrinsic_index, Some(2));
    let none = generate_notifications(
        1,
        &block(5),
        (None, None),
        &vec![rule(1, NotificationPeriodType::Off, vec![1, 2, 3])],
        &account(1),
    );
    assert!(none.is_empty());
    assert!(generate_notifications(1, &block(5), (None, None), &vec![], &account(1)).is_empty());
}

#[test]
fn inspectors_place_the_event_as_the_store_holds_it() {
    let rules = vec![rule(1, NotificationPeriodType::Immediate, vec![10])];
    let authored = inspect_block_authorship(1, &block(7), &rules);
    assert_eq!(authored.len(), 1);
    assert_eq!(authored[0].validator_account_id, account(1));
    assert_eq!((authored[0].extrinsic_index, authored[0].event_index), (None, None));
    let mut without_author = block(7);
    without_author.author_account_id = None;
    assert!(inspect_block_authorship(1, &without_author, &rules).is_empty());
    let chilled = ChilledEvent {
        id: 1,
        block_hash: "0xhash7".to_string(),
        extrinsic_index: Some(4),
        event_index: 9,
        stash_account_id: account(3),
    };
    let queued = inspect_chilling(1, &block(7), &chilled, &rules);
    assert_eq!((queued[0].extrinsic_index, queued[0].event_index), (Some(4), Some(9)));
    assert_eq!(queued[0].validator_account_id, account(3));
    let queued = inspect_extrinsic(1, &block(7), 12, &account(4), &rules);
    assert_eq!((queued[0].extrinsic_index, queued[0].event_index), (Some(12), None));
    assert_eq!(queued[0].validator_account_id, account(4));
}

#[test]
fn cursor_stops_at_the_block_that_fails() {
    let mut cursor = Cursor::new(Some(100));
    let inspected = cursor.on_new_block(105, &vec![true, true, true, false, true]);
    assert_eq!(inspected, 3);
    assert_eq!(cursor.last_processed_block_number, Some(103));
    assert_eq!(cursor.next(105), Some(104));
    assert_eq!(cursor.next(200), Some(104));
}

#[test]
fn cursor_reaches_the_block_it_is_told_of() {
    let mut cursor = Cursor::new(Some(100));
    assert_eq!(cursor.on_new_block(105, &vec![true; 5]), 5);
    assert_eq!(cursor.last_processed_block_number, Some(105));
    assert_eq!(cursor.next(105), None);
    assert_eq!(cursor.next(100), None);
    assert_eq!(cursor.on_new_block(105, &vec![true]), 0);
    assert_eq!(cursor.last_processed_block_number, Some(105));
    let mut fresh = Cursor::new(None);
    assert_eq!(fresh.next(42), Some(42));
    assert_eq!(fresh.on_new_block(42, &vec![true, true]), 1);
    assert_eq!(fresh.last_processed_block_number, Some(42));
    let mut failing = Cursor::new(None);
    assert_eq!(failing.on_new_block(42, &vec![false]), 0);
    assert_eq!(failing.last_processed_block_number, None);
    let mut first_fails = Cursor::new(Some(10));
    assert_eq!(first_fails.on_new_block(12, &vec![false, true]), 0);
    assert_eq!(first_fails.last_processed_block_number, Some(10));
    let mut at_the_end = Cursor::new(Some(u64::MAX));
    assert_eq!(at_the_end.next(u64::MAX), None);
    let mut step = Cursor::new(Some(1));
    step.advance(2);
    assert_eq!(step.last_processed_block_number, Some(2));
    let mut short = Cursor::new(Some(100));
    assert_eq!(short.on_new_block(105, &vec![true, true]), 2);
    assert_eq!(short.last_processed_block_number, Some(102));
}

#[test]
fn inspection_runs_in_order_and_a_failure_is_not_passed_over() {
    assert_eq!(inspect_block(false), InspectionStep::SaveState);
    let mut step = inspect_block(true);
    let mut order = Vec::new();
    while let InspectionStep::Run(inspector) = step {
        order.push(inspector);
        step = after_inspector(inspector, true);
    }
    assert_eq!(step, InspectionStep::SaveState);
    assert_eq!(
        order,
        vec![
            BlockInspector::Authorship,
            BlockInspector::OfflineOffences,
            BlockInspector::Chillings,
            BlockInspector::ValidateExtrinsics,
            BlockInspector::SetControllerExtrinsics,
            BlockInspector::PayoutStakersExtrinsics,
        ]
    );
    assert_eq!(after_inspector(BlockInspector::Chillings, false), InspectionStep::Abandon);
    assert_eq!(
        BlockInspector::OfflineOffences.type_code(),
        NotificationTypeCode::ChainValidatorOfflineOffence
    );
    assert_eq!(BlockInspector::PayoutStakersExtrinsics.next(), None);
}

fn pending(user_id: u32, rule_id: u32, period_type: NotificationPeriodType, period: u16) -> Notification {
    let mut queued = generate_notifications(
        1,
        &block(1),
        (None, None),
        &vec![UserNotificationRule {
            id: rule_id,
            user_id,
            notification_type_code: "code".to_string(),
            validator_account_id: None,
            period_type,
            period,
            notification_channels: vec![channel(1, user_id)],
        }],
        &account(1),
    );
    queued.remove(0)
}

#[test]
fn ticks_come_at_the_top_of_the_hour_and_at_noon() {
    assert_eq!(ticks_at(15, 9, 0, 0), vec![Tick::Hour(9)]);
    assert_eq!(ticks_at(15, 12, 0, 0), vec![Tick::Hour(12), Tick::Day(15)]);
    assert_eq!(ticks_at(15, 12, 0, 1), vec![]);
    assert_eq!(ticks_at(15, 12, 30, 0), vec![]);
    assert_eq!(ticks_at(1, 0, 0, 0), vec![Tick::Hour(0)]);
}

#[test]
fn gathered_notifications_go_out_rule_by_rule() {
    let queue = vec![
        pending(1, 10, NotificationPeriodType::Hour, 1),
        pending(2, 20, NotificationPeriodType::Hour, 2),
        pending(1, 10, NotificationPeriodType::Hour, 1),
        pending(1, 11, NotificationPeriodType::Day, 1),
        pending(3, 30, NotificationPeriodType::Immediate, 0),
        pending(2, 20, NotificationPeriodType::Hour, 2),
        pending(1, 12, NotificationPeriodType::Hour, 0),
    ];
    assert!(due(&queue[0], Tick::Hour(7)));
    assert!(!due(&queue[1], Tick::Hour(7)));
    assert!(due(&queue[1], Tick::Hour(8)));
    assert!(!due(&queue[3], Tick::Hour(8)));
    assert!(due(&queue[3], Tick::Day(8)));
    assert!(!due(&queue[4], Tick::Hour(8)));
    assert!(!due(&queue[6], Tick::Hour(8)));
    let groups = coalesce(&queue, Tick::Hour(8));
    assert_eq!(groups.len(), 2);
    assert_eq!((groups[0].user_id, groups[0].user_notification_rule_id), (1, 10));
    assert_eq!(groups[0].positions, vec![0, 2]);
    assert_eq!((groups[1].user_id, groups[1].user_notification_rule_id), (2, 20));
    assert_eq!(groups[1].positions, vec![1, 5]);
    let odd = coalesce(&queue, Tick::Hour(7));
    assert_eq!(odd.len(), 1);
    assert_eq!(odd[0].positions, vec![0, 2]);
    let daily = coalesce(&queue, Tick::Day(3));
    assert_eq!(daily.len(), 1);
    assert_eq!(daily[0].positions, vec![3]);
    assert!(coalesce(&vec![], Tick::Hour(1)).is_empty());
}

#[test]
fn vote_of_block_12345678_becomes_its_row() {
    let event = DemocracyEvent::Voted {
        extrinsic_index: Some(2),
        account_id: account(0xAA),
        referendum_index: 42,
        vote: AccountVote::Standard {
            vote: Vote { aye: true, conviction: Conviction::Locked3x },
            balance: 1_000_000,
        },
    };
    let row = process_democracy_event("0x12345678", 7, &event);
    assert_eq!(row.block_hash, "0x12345678");
    assert_eq!(row.event_index, 7);
    assert_eq!(row.extrinsic_index, Some(2));
    match row.columns {
        DemocracyColumns::Voted {
            account_id,
            referendum_index,
            aye_balance,
            nay_balance,
            conviction,
        } => {
            assert_eq!(account_id, account(0xAA));
            assert_eq!(referendum_index, 42);
            assert_eq!(aye_balance, Some(1_000_000));
            assert_eq!(nay_balance, None);
            assert_eq!(conviction, Some(3));
        }
        other => panic!("unexpected: {:?}", other),
    }
}

#[test]
fn votes_of_every_kind() {
    let nay = AccountVote::Standard {
        vote: Vote { aye: false, conviction: Conviction::Unlocked },
        balance: 5,
    };
    assert_eq!((nay.aye_balance(), nay.nay_balance(), nay.conviction()), (None, Some(5), Some(0)));
    let split = AccountVote::Split { aye: 3, nay: 4 };
    assert_eq!((split.aye_balance(), split.nay_balance(), split.conviction()), (Some(3), Some(4), None));
    assert_eq!(Conviction::Locked6x.number(), 6);
    assert_eq!(Conviction::Locked1x.number(), 1);
    assert_eq!(VoteThreshold::SimpleMajority.to_json(), "\"SimpleMajority\"");
    let started = DemocracyEvent::Started {
        extrinsic_index: None,
        referendum_index: 9,
        vote_threshold: VoteThreshold::SuperMajorityApprove,
    };
    let row = process_democracy_event("0x01", 0, &started);
    assert_eq!(row.extrinsic_index, None);
    assert!(
        matches!(row.columns, DemocracyColumns::Started { referendum_index: 9, vote_threshold } if vote_threshold == "\"SuperMajorityApprove\"")
    );
    let proposed = DemocracyEvent::Proposed { extrinsic_index: Some(1), proposal_index: 2, deposit: 3 };
    assert!(matches!(
        process_democracy_event("0x01", 0, &proposed).columns,
        DemocracyColumns::Proposed { proposal_index: 2, deposit: 3 }
    ));
    let delegated = DemocracyEvent::Delegated {
        extrinsic_index: None,
        original_account_id: account(1),
        delegate_account_id: account(2),
    };
    assert!(matches!(
        process_democracy_event("0x01", 0, &delegated).columns,
        DemocracyColumns::Delegated { original_account_id, delegate_account_id }
            if original_account_id == account(1) && delegate_account_id == account(2)
    ));
}

fn pallet_event(name: &str) -> PalletEvent {
    PalletEvent { name: name.to_string(), extrinsic_index: None }
}

#[test]
fn events_are_persisted_by_pallet() {
    let cancelled = SubstrateEvent::Democracy(DemocracyEvent::Cancelled {
        extrinsic_index: None,
        referendum_index: 1,
    });
    assert!(matches!(
        process_event("0x01", 4, &cancelled),
        EventStep::PersistDemocracy(row) if row.event_index == 4
    ));
    assert!(matches!(
        process_event("0x01", 4, &SubstrateEvent::Staking(pallet_event("Chilled"))),
        EventStep::Persist(Pallet::Staking)
    ));
    assert!(matches!(
        process_event("0x01", 4, &SubstrateEvent::ImOnline(pallet_event("SomeOffline"))),
        EventStep::Persist(Pallet::ImOnline)
    ));
    assert!(matches!(
        process_event("0x01", 4, &SubstrateEvent::Utility(pallet_event("BatchCompleted"))),
        EventStep::Skip
    ));
    assert!(matches!(
        process_event(
            "0x01",
            4,
            &SubstrateEvent::Other { module_name: "X".to_string(), call_name: "y".to_string() }
        ),
        EventStep::Skip
    ));
    let events = vec![
        (0, cancelled),
        (1, SubstrateEvent::ImOnline(pallet_event("SomeOffline"))),
        (2, SubstrateEvent::System(pallet_event("ExtrinsicSuccess"))),
        (3, SubstrateEvent::Proxy(pallet_event("ProxyExecuted"))),
        (4, SubstrateEvent::Referenda(pallet_event("Submitted"))),
    ];
    assert_eq!(
        update_event_nesting_indices(&events),
        vec![
            NestingUpdate { pallet: Pallet::Democracy, event_index: 0 },
            NestingUpdate { pallet: Pallet::System, event_index: 2 },
            NestingUpdate { pallet: Pallet::Referenda, event_index: 4 },
        ]
    );
    assert!(Pallet::ImOnline.is_persisted());
    assert!(!Pallet::ImOnline.is_nestable());
    assert!(!Pallet::Identity.is_persisted());
}

fn nominated_by(n: u8) -> Nomination {
    Nomination {
        nominator_account_id: account(n),
        controller_account_id: None,
        submission_era_index: 0,
        target_account_ids: vec![],
        stake: Stake::empty(account(n)),
    }
}

#[test]
fn nominators_are_told_apart() {
    let last = vec![nominated_by(1), nominated_by(2), nominated_by(3)];
    let current = vec![nominated_by(3), nominated_by(4), nominated_by(2), nominated_by(4)];
    let changes = inspect_nomination_changes(&last, &current);
    assert_eq!(changes.new_nominator_ids, vec![account(4)]);
    assert_eq!(changes.lost_nominator_ids, vec![account(1)]);
    assert_eq!(changes.renominator_ids, vec![account(3), account(2)]);
    let none = inspect_nomination_changes(&vec![], &vec![]);
    assert!(none.new_nominator_ids.is_empty() && none.lost_nominator_ids.is_empty());
}

#[test]
fn programme_changes_are_listed_for_enrolled_validators() {
    let mut last = ValidatorDetails::new(account(1));
    last.onekv_candidate_record_id = Some(1);
    last.onekv_rank = Some(5);
    last.onekv_location = Some("Paris".to_string());
    last.onekv_is_valid = Some(true);
    let mut current = last.duplicate();
    assert!(inspect_onekv_changes(&last, &current).is_empty());
    assert!(inspect_onekv_location_change(&last, &current).is_none());
    current.onekv_rank = Some(6);
    current.onekv_location = None;
    current.onekv_is_valid = Some(false);
    current.onekv_binary_version = Some("v1".to_string());
    let changes = inspect_onekv_changes(&last, &current);
    assert_eq!(changes.len(), 4);
    assert!(
        matches!(&changes[0], OneKVChange::BinaryVersion { previous: None, current: Some(v) } if v == "v1")
    );
    assert!(matches!(&changes[1], OneKVChange::Rank { previous: Some(5), current: Some(6) }));
    assert!(
        matches!(&changes[2], OneKVChange::Location { previous: Some(p), current: None } if p == "Paris")
    );
    assert!(matches!(&changes[3], OneKVChange::Validity { is_valid: Some(false) }));
    current.onekv_candidate_record_id = None;
    assert!(inspect_onekv_changes(&last, &current).is_empty());
}

#[test]
fn unclaimed_payouts_are_looked_at_once_per_era_after_the_delay() {
    let hour = 3_600_000u64;
    assert!(is_unclaimed_payout_check_due(1000, 1000 + 4 * hour, 4, 9, 10));
    assert!(!is_unclaimed_payout_check_due(1000, 999 + 4 * hour, 4, 9, 10));
    assert!(!is_unclaimed_payout_check_due(1000, 1000 + 4 * hour, 4, 10, 10));
    assert!(!is_unclaimed_payout_check_due(1000, 0, 0, 9, 10));
    assert!(is_unclaimed_payout_check_due(1000, 1000, 0, 9, 10));
    let mut with = ValidatorDetails::new(account(1));
    with.unclaimed_era_indices = vec![3];
    let without = ValidatorDetails::new(account(2));
    let mut also = ValidatorDetails::new(account(3));
    also.unclaimed_era_indices = vec![1, 2];
    assert_eq!(inspect_unclaimed_payouts(&vec![with, without, also]), vec![0, 2]);
}

#[test]
fn notification_type_codes() {
    assert_eq!(
        NotificationTypeCode::ChainValidatorBlockAuthorship.to_string(),
        "chain_validator_block_authorship"
    );
    assert_eq!(
        NotificationTypeCode::OneKVValidatorRankChange.to_string(),
        "onekv_validator_rank_change"
    );
    assert_eq!(NotificationTypeCode::DemocracyVoted.to_string(), "democracy_voted");
}
