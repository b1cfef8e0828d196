use subvt::account::AccountId;
use subvt::fingerprint::{fingerprint, fingerprint_text};
use subvt::network_status::{LiveNetworkStatus, LiveNetworkStatusDiff};
use subvt::network_status_server::{
    BusEvent as StatusBusEvent, LiveNetworkStatusPresenter,
};
use subvt::services::{ReportService, ValidatorListUpdater};
use subvt::store::{
    get_addresses_key, get_best_block_channel, get_finalized_block_channel,
    get_finalized_block_hash_key, get_finalized_block_number_key, get_live_network_status_key,
    get_validator_hash_key, get_validator_key, get_validator_key_pattern,
    get_validator_summary_hash_key, update_redis, ValidatorRecord,
};
use subvt::validator::{Nomination, RewardDestination, Stake};
use subvt::validator_details::ValidatorDetails;
use subvt::validator_details_server::{BusEvent, ValidatorDetailsServer, WorkerStep};

fn account(n: u8) -> AccountId {
    AccountId::new([n; 32])
}

fn address(n: u8) -> String {
    format!("0x{}", format!("{:02X}", n).repeat(32))
}

fn status(best: u64) -> LiveNetworkStatus {
    LiveNetworkStatus {
        best_block_number: best,
        finalized_block_number: best.saturating_sub(2),
        era_index: 10,
        epoch_index: 60,
        last_era_reward_points: 1000,
        total_stake: 5_000,
        min_stake: 10,
        max_stake: 900,
        average_stake: 50,
        median_stake: 40,
        active_validator_count: 900,
        inactive_validator_count: 1500,
        oversubscribed_validator_count: 3,
    }
}

fn record(n: u8, is_active: bool, json: &str) -> ValidatorRecord {
    ValidatorRecord {
        account_id: account(n),
        is_active,
        details_json: json.to_string(),
        summary_json: format!("summary of {}", json),
    }
}

#[test]
fn keys_and_channels_are_exact() {
    assert_eq!(
        get_finalized_block_number_key("kusama"),
        "subvt:kusama:validators:finalized_block_number"
    );
    assert_eq!(
        get_finalized_block_hash_key("kusama"),
        "subvt:kusama:validators:finalized_block_hash"
    );
    assert_eq!(get_addresses_key("kusama", true), "subvt:kusama:validators:active:addresses");
    assert_eq!(
        get_addresses_key("kusama", false),
        "subvt:kusama:validators:inactive:addresses"
    );
    assert_eq!(
        get_validator_key("kusama", 1234, true, &account(0xAB)),
        format!("subvt:kusama:validators:1234:active:validator:{}", address(0xAB))
    );
    assert_eq!(
        get_validator_hash_key("kusama", 0, false, &account(1)),
        format!("subvt:kusama:validators:0:inactive:validator:{}:hash", address(1))
    );
    assert_eq!(
        get_validator_summary_hash_key("polkadot", u64::MAX, true, &account(1)),
        format!(
            "subvt:polkadot:validators:18446744073709551615:active:validator:{}:summary_hash",
            address(1)
        )
    );
    assert_eq!(
        get_validator_key_pattern("kusama", false),
        "subvt:kusama:validators:*:inactive:validator:*"
    );
    assert_eq!(get_live_network_status_key("kusama"), "subvt:kusama:live_network_status");
    assert_eq!(
        get_finalized_block_channel("kusama"),
        "subvt:kusama:validators:publish:finalized_block_number"
    );
    assert_eq!(
        get_best_block_channel("kusama"),
        "subvt:kusama:live_network_status:publish:best_block_number"
    );
}

#[test]
fn snapshot_batch_is_in_order() {
    let records = vec![record(1, true, "{\"a\":1}"), record(2, true, "{}"), record(3, false, "{}")];
    let batch = update_redis("kusama", 77, "0xabc", &records);
    let names: Vec<&str> = batch.iter().map(|command| command.name.as_str()).collect();
    assert_eq!(
        names,
        vec!["MSET", "DEL", "DEL", "SADD", "SADD", "DEL", "DEL", "MSET", "PUBLISH"]
    );
    assert_eq!(
        batch[0].arguments,
        vec![
            "subvt:kusama:validators:finalized_block_number",
            "77",
            "subvt:kusama:validators:finalized_block_hash",
            "0xabc"
        ]
    );
    assert_eq!(batch[1].arguments, vec!["subvt:kusama:validators:active:addresses"]);
    assert_eq!(batch[2].arguments, vec!["subvt:kusama:validators:inactive:addresses"]);
    assert_eq!(
        batch[3].arguments,
        vec!["subvt:kusama:validators:active:addresses".to_string(), address(1), address(2)]
    );
    assert_eq!(
        batch[4].arguments,
        vec!["subvt:kusama:validators:inactive:addresses".to_string(), address(3)]
    );
    assert_eq!(batch[5].arguments, vec!["subvt:kusama:validators:*:active:validator:*"]);
    assert_eq!(batch[6].arguments, vec!["subvt:kusama:validators:*:inactive:validator:*"]);
    assert_eq!(batch[7].arguments.len(), 18);
    assert_eq!(
        batch[7].arguments[0],
        format!("subvt:kusama:validators:77:active:validator:{}:hash", address(1))
    );
    assert_eq!(batch[7].arguments[1], fingerprint_text("{\"a\":1}").to_string());
    assert_eq!(
        batch[7].arguments[2],
        format!("subvt:kusama:validators:77:active:validator:{}:summary_hash", address(1))
    );
    assert_eq!(
        batch[7].arguments[3],
        fingerprint_text("summary of {\"a\":1}").to_string()
    );
    assert_eq!(
        batch[7].arguments[4],
        format!("subvt:kusama:validators:77:active:validator:{}", address(1))
    );
    assert_eq!(batch[7].arguments[5], "{\"a\":1}");
    assert_eq!(
        batch[7].arguments[16],
        format!("subvt:kusama:validators:77:inactive:validator:{}", address(3))
    );
    assert_eq!(
        batch[8].arguments,
        vec!["subvt:kusama:validators:publish:finalized_block_number", "77"]
    );
}

#[test]
fn unchanged_state_gives_the_same_fingerprints() {
    let records = vec![record(1, true, "{\"a\":1}"), record(3, false, "{\"b\":[]}")];
    let first = update_redis("kusama", 5, "0x01", &records);
    let second = update_redis("kusama", 5, "0x01", &records);
    assert_eq!(first[7].arguments, second[7].arguments);
    let later = update_redis("kusama", 6, "0x02", &records);
    assert_eq!(first[7].arguments[1], later[7].arguments[1]);
    assert_eq!(first[7].arguments[3], later[7].arguments[3]);
    assert_eq!(first[7].arguments[9], later[7].arguments[9]);
    assert_eq!(fingerprint(b"abc"), fingerprint_text("abc"));
    assert_ne!(fingerprint(b"abc"), fingerprint(b"abd"));
    assert_ne!(first[7].arguments[1], first[7].arguments[7]);
}

#[test]
fn batch_for_no_validators_still_publishes() {
    let batch = update_redis("kusama", 1, "0x00", &vec![]);
    assert_eq!(batch.len(), 9);
    assert_eq!(batch[3].arguments.len(), 1);
    assert_eq!(batch[7].arguments.len(), 0);
    assert_eq!(batch[8].name, "PUBLISH");
}

#[test]
fn status_diff_carries_changed_fields_only() {
    let previous = status(100);
    let mut current = status(101);
    current.total_stake = 6_000;
    let diff = previous.get_diff(&current);
    assert_eq!(diff.best_block_number, Some(101));
    assert_eq!(diff.finalized_block_number, Some(99));
    assert_eq!(diff.total_stake, Some(6_000));
    assert_eq!(diff.era_index, None);
    assert_eq!(diff.median_stake, None);
    assert!(!diff.is_empty());
    assert!(previous.get_diff(&previous).is_empty());
}

#[test]
fn status_with_its_diff_applied_is_the_later_status() {
    let cases = [(status(1), status(2)), (status(5), status(5)), (LiveNetworkStatus::default(), status(9))];
    for (previous, current) in cases {
        let mut applied = previous;
        applied.apply_diff(&previous.get_diff(&current));
        assert_eq!(applied, current);
    }
    let mut untouched = status(3);
    untouched.apply_diff(&LiveNetworkStatusDiff {
        best_block_number: None,
        finalized_block_number: None,
        era_index: None,
        epoch_index: None,
        last_era_reward_points: None,
        total_stake: None,
        min_stake: None,
        max_stake: None,
        average_stake: None,
        median_stake: None,
        active_validator_count: Some(1),
        inactive_validator_count: None,
        oversubscribed_validator_count: None,
    });
    assert_eq!(untouched.active_validator_count, 1);
    assert_eq!(untouched.best_block_number, 3);
}

#[test]
fn presenter_skips_duplicates_and_hands_out_diffs() {
    let mut current = LiveNetworkStatus::default();
    assert!(LiveNetworkStatusPresenter::is_duplicate(&current, 0));
    assert!(!LiveNetworkStatusPresenter::is_duplicate(&current, 7));
    assert!(LiveNetworkStatusPresenter::first_update("kusama", &current).is_none());
    assert!(LiveNetworkStatusPresenter::accept_status(&mut current, status(7)).is_none());
    assert_eq!(current, status(7));
    let first = LiveNetworkStatusPresenter::first_update("kusama", &current).unwrap();
    assert_eq!(first.network, "kusama");
    assert_eq!(first.status, Some(status(7)));
    assert_eq!(first.diff, None);
    let event = LiveNetworkStatusPresenter::accept_status(&mut current, status(8)).unwrap();
    match &event {
        StatusBusEvent::NewBlock(diff) => {
            assert_eq!(**diff, status(7).get_diff(&status(8)));
        }
        StatusBusEvent::Error => panic!("unexpected"),
    }
    let update = LiveNetworkStatusPresenter::update_for("kusama", &event).unwrap();
    assert_eq!(update.status, None);
    assert_eq!(update.diff, Some(status(7).get_diff(&status(8))));
    assert_eq!(update.diff_base_block_number, None);
    assert!(LiveNetworkStatusPresenter::update_for("kusama", &StatusBusEvent::Error).is_none());
}

fn details(n: u8) -> ValidatorDetails {
    let mut details = ValidatorDetails::new(account(n));
    details.next_session_keys = "0xaa".to_string();
    details.nominations = vec![Nomination {
        nominator_account_id: account(50),
        controller_account_id: Some(account(51)),
        submission_era_index: 3,
        target_account_ids: vec![account(n)],
        stake: Stake { stash_account_id: account(50), total_amount: 9, active_amount: 8 },
    }];
    details.unclaimed_era_indices = vec![1, 2];
    details.onekv_location = Some("Paris".to_string());
    details
}

#[test]
fn details_diff_carries_changed_fields_only() {
    let previous = details(1);
    let mut current = details(1);
    current.is_active = true;
    current.onekv_location = Some("Rome".to_string());
    current.nominations[0].stake.active_amount = 7;
    current.reward_destination = RewardDestination::Controller;
    let diff = previous.get_diff(&current);
    assert_eq!(diff.is_active, Some(true));
    assert_eq!(diff.onekv_location, Some(Some("Rome".to_string())));
    assert_eq!(diff.reward_destination, Some(RewardDestination::Controller));
    assert_eq!(diff.nominations.as_ref().unwrap()[0].stake.active_amount, 7);
    assert!(diff.next_session_keys.is_none());
    assert!(diff.unclaimed_era_indices.is_none());
    assert!(diff.account.is_none());
    assert!(diff.slashed.is_none());
    assert!(!diff.is_empty());
    assert!(previous.get_diff(&details(1)).is_empty());
}

#[test]
fn details_with_their_diff_applied_are_the_later_details() {
    let previous = details(1);
    let mut current = details(1);
    current.slashed = true;
    current.unclaimed_era_indices = vec![];
    current.account.discovered_at = Some(4);
    current.session_keys = "0x01".to_string();
    current.controller_account_id = Some(account(4));
    current.onekv_rank = Some(10);
    let applied = previous.duplicate().apply_diff(previous.get_diff(&current));
    assert!(applied.equals(&current));
    assert!(!applied.equals(&previous));
    let same = previous.duplicate().apply_diff(previous.get_diff(&previous));
    assert!(same.equals(&previous));
    let far = ValidatorDetails::new(account(9));
    let applied = previous.duplicate().apply_diff(previous.get_diff(&far));
    assert!(applied.equals(&far));
}

#[test]
fn details_server_takes_blocks_and_decides_what_to_send() {
    let mut last = 0u64;
    assert_eq!(
        ValidatorDetailsServer::accept_finalized_block(&mut last, 5),
        Some(BusEvent::NewFinalizedBlock(5))
    );
    assert_eq!(last, 5);
    assert_eq!(ValidatorDetailsServer::accept_finalized_block(&mut last, 5), None);
    assert_eq!(last, 5);
    assert!(ValidatorDetailsServer::goes_on(BusEvent::NewFinalizedBlock(5)));
    assert!(!ValidatorDetailsServer::goes_on(BusEvent::Error));
    assert_eq!(ValidatorDetailsServer::parse_account(&address(3)), Ok(account(3)));
    assert_eq!(
        ValidatorDetailsServer::parse_account("0x12"),
        Err("Invalid account id.".to_string())
    );
    let json = "{\"is_active\":true}";
    assert_eq!(ValidatorDetailsServer::next_step(json, None), WorkerStep::ReportMissing);
    assert_eq!(
        ValidatorDetailsServer::next_step(json, Some(fingerprint_text(json))),
        WorkerStep::SendHeartbeat
    );
    assert_eq!(
        ValidatorDetailsServer::next_step(json, Some(fingerprint_text(json).wrapping_add(1))),
        WorkerStep::ReadDetails
    );
    let heartbeat = ValidatorDetailsServer::heartbeat(9);
    assert_eq!(heartbeat.finalized_block_number, Some(9));
    assert!(heartbeat.validator_details.is_none());
    assert!(heartbeat.validator_details_update.is_none());
    let first = ValidatorDetailsServer::first_update(9, &details(1));
    assert!(first.validator_details.unwrap().equals(&details(1)));
    assert!(first.validator_details_update.is_none());
    let mut held = details(1);
    let mut stored = details(1);
    stored.oversubscribed = true;
    let update = ValidatorDetailsServer::refresh(&mut held, stored, 10);
    assert_eq!(update.finalized_block_number, Some(10));
    assert!(update.validator_details.is_none());
    let diff = update.validator_details_update.unwrap();
    assert_eq!(diff.oversubscribed, Some(true));
    assert!(diff.is_active.is_none());
    assert!(held.oversubscribed);
}

#[test]
fn updater_skips_headers_while_busy() {
    let mut is_busy = false;
    assert!(ValidatorListUpdater::try_start(&mut is_busy));
    assert!(is_busy);
    assert!(!ValidatorListUpdater::try_start(&mut is_busy));
    assert!(is_busy);
    ValidatorListUpdater::finish(&mut is_busy);
    assert!(!is_busy);
    assert!(ValidatorListUpdater::try_start(&mut is_busy));
    assert!(ReportService::is_duplicate(4, 4));
    assert!(!ReportService::is_duplicate(4, 5));
}
