use subvt::account::AccountId;
use subvt::chain_types::{decode_ledger, decode_nomination, decode_payee, decode_preferences};
use subvt::identity::IdentityView;
use subvt::materializer::{
    bonded_from_changes, controllers_of, identity_patches, ledgers_from_changes,
    nominations_from_changes, parent_patches, patches_from_changes, queued_keys_patches,
    stakers_from_changes, ReadKind, StorageChange,
};
use subvt::nomination_sort::sort_nominations;
use subvt::nominations::{assign_controllers, assign_stakes};
use subvt::validator::{
    IdentityRegistration, Nomination, ParentAccount, RewardDestination, Stake,
    ValidatorPreferences,
};
use subvt::validator_details::ValidatorDetails;
use subvt::validator_set::{apply_patch, ValidatorInfo, ValidatorPatch, ValidatorSet};

fn account(n: u8) -> AccountId {
    AccountId::new([n; 32])
}

fn numbered(n: u16) -> AccountId {
    let mut bytes = [0u8; 32];
    bytes[0] = (n & 0xFF) as u8;
    bytes[1] = (n >> 8) as u8;
    AccountId::new(bytes)
}

fn nomination(nominator: AccountId, targets: Vec<AccountId>) -> Nomination {
    Nomination {
        nominator_account_id: nominator,
        controller_account_id: Some(nominator),
        submission_era_index: 1,
        target_account_ids: targets,
        stake: Stake::empty(nominator),
    }
}

fn key_of(id: AccountId) -> Vec<u8> {
    let mut key = vec![0xEE; 32];
    key.extend_from_slice(id.as_slice());
    key
}

fn change(id: AccountId, data: Option<Vec<u8>>) -> StorageChange {
    StorageChange { key: key_of(id), data }
}

#[test]
fn active_and_inactive_part_the_intentions() {
    let (v1, v2, v3) = (account(1), account(2), account(3));
    let set = ValidatorSet::from_intentions(&vec![v1, v2], &vec![v1, v2, v3]);
    let validators = set.validators();
    assert_eq!(validators.len(), 3);
    let active: Vec<AccountId> =
        validators.iter().filter(|v| v.is_active).map(|v| v.account.id).collect();
    let inactive: Vec<AccountId> =
        validators.iter().filter(|v| !v.is_active).map(|v| v.account.id).collect();
    assert_eq!(active, vec![v1, v2]);
    assert_eq!(inactive, vec![v3]);
}

#[test]
fn intention_counts_once_and_active_without_intention_is_left_out() {
    let (v1, v2, v3) = (account(1), account(2), account(3));
    let set = ValidatorSet::from_intentions(&vec![v3, v1], &vec![v2, v1, v2, v1]);
    let ids: Vec<AccountId> = set.validators().iter().map(|v| v.account.id).collect();
    assert_eq!(ids, vec![v2, v1]);
    assert!(!set.validators()[0].is_active);
    assert!(set.validators()[1].is_active);
    assert_eq!(set.len(), 2);
    assert_eq!(set.position(&v1), Some(1));
    assert_eq!(set.position(&v3), None);
    let empty = ValidatorSet::from_intentions(&vec![v1], &vec![]);
    assert_eq!(empty.len(), 0);
}

#[test]
fn validator_with_513_nominators_is_oversubscribed() {
    let v1 = account(200);
    let v2 = account(201);
    let mut nominations = Vec::new();
    for n in 0..513u16 {
        let targets = if n < 512 { vec![v1, v2] } else { vec![v1] };
        nominations.push(nomination(numbered(n), targets));
    }
    let mut set = ValidatorSet::from_intentions(&vec![v1], &vec![v1, v2, account(202)]);
    set.attach_nominations(&nominations, 512);
    let validators = set.validators();
    assert_eq!(validators[0].nominations.len(), 513);
    assert!(validators[0].oversubscribed);
    assert_eq!(validators[1].nominations.len(), 512);
    assert!(!validators[1].oversubscribed);
    assert_eq!(validators[2].nominations.len(), 0);
    assert!(!validators[2].oversubscribed);
    assert!(validators[0].is_active);
}

#[test]
fn nominations_come_out_in_one_order_however_they_come_in() {
    let v = account(9);
    let forward: Vec<Nomination> = (0..40u16).map(|n| nomination(numbered(n), vec![v])).collect();
    let backward: Vec<Nomination> =
        (0..40u16).rev().map(|n| nomination(numbered(n), vec![v])).collect();
    let mut first = ValidatorSet::from_intentions(&vec![], &vec![v]);
    first.attach_nominations(&forward, 512);
    let mut second = ValidatorSet::from_intentions(&vec![], &vec![v]);
    second.attach_nominations(&backward, 512);
    let order = |set: &ValidatorSet| -> Vec<AccountId> {
        set.validators()[0].nominations.iter().map(|n| n.nominator_account_id).collect()
    };
    assert_eq!(order(&first), order(&second));
    let keys: Vec<u64> = order(&first).iter().map(|id| id.sort_key()).collect();
    let mut sorted = keys.clone();
    sorted.sort();
    assert_eq!(keys, sorted);
    assert_ne!(
        order(&first),
        forward.iter().map(|n| n.nominator_account_id).collect::<Vec<_>>()
    );
}

#[test]
fn sorting_keeps_every_nomination() {
    let nominations: Vec<Nomination> =
        (0..10u16).map(|n| nomination(numbered(n), vec![account(1)])).collect();
    let sorted = sort_nominations(nominations);
    assert_eq!(sorted.len(), 10);
    let mut ids: Vec<[u8; 32]> = sorted.iter().map(|n| n.nominator_account_id.bytes).collect();
    ids.sort();
    let expected: Vec<[u8; 32]> = (0..10u16).map(|n| numbered(n).bytes).collect();
    assert_eq!(ids, expected);
    assert_eq!(sort_nominations(vec![]).len(), 0);
}

#[test]
fn nomination_without_controller_is_left_out() {
    let v = account(9);
    let mut orphan = nomination(account(1), vec![v]);
    orphan.controller_account_id = None;
    let mut set = ValidatorSet::from_intentions(&vec![], &vec![v]);
    set.attach_nominations(&vec![orphan, nomination(account(2), vec![v])], 512);
    let nominators: Vec<AccountId> =
        set.validators()[0].nominations.iter().map(|n| n.nominator_account_id).collect();
    assert_eq!(nominators, vec![account(2)]);
}

#[test]
fn patches_change_the_validator_they_are_for() {
    let (v1, v2) = (account(1), account(2));
    let mut set = ValidatorSet::from_intentions(&vec![v1], &vec![v1, v2]);
    set.apply_patches(vec![
        (v2, ValidatorPatch::NextSessionKeys("0xaa".to_string())),
        (v1, ValidatorPatch::NextSessionKeys("0xbb".to_string())),
        (v2, ValidatorPatch::QueuedKeys("0xaa".to_string())),
        (v1, ValidatorPatch::QueuedKeys("0xcc".to_string())),
        (account(3), ValidatorPatch::Slashed),
        (v2, ValidatorPatch::Slashed),
        (v1, ValidatorPatch::Payee(RewardDestination::Account(v2))),
        (v1, ValidatorPatch::Controller(account(7))),
        (v1, ValidatorPatch::Controller(account(8))),
        (v2, ValidatorPatch::Preferences(ValidatorPreferences {
            commission_per_billion: 10_000_000,
            blocks_nominations: true,
        })),
        (v2, ValidatorPatch::SelfStake(Stake {
            stash_account_id: v2,
            total_amount: 10,
            active_amount: 9,
        })),
    ]);
    let validators = set.validators();
    assert_eq!(validators[0].next_session_keys, "0xbb");
    assert!(!validators[0].active_next_session);
    assert!(!validators[0].slashed);
    assert_eq!(validators[0].reward_destination, RewardDestination::Account(v2));
    assert_eq!(validators[0].controller_account_id, Some(account(8)));
    assert_eq!(validators[1].next_session_keys, "0xaa");
    assert!(validators[1].active_next_session);
    assert!(validators[1].slashed);
    assert_eq!(validators[1].reward_destination, RewardDestination::Staked);
    assert_eq!(validators[1].preferences.commission_per_billion, 10_000_000);
    assert!(validators[1].preferences.blocks_nominations);
    assert_eq!(validators[1].self_stake.active_amount, 9);
    assert_eq!(set.len(), 2);
}

#[test]
fn what_the_relational_store_knows_is_put_in_place() {
    let mut details = ValidatorDetails::new(account(1));
    apply_patch(
        &mut details,
        ValidatorPatch::Info(ValidatorInfo {
            discovered_at: Some(5),
            killed_at: None,
            slash_count: 1,
            offline_offence_count: 2,
            active_era_count: 3,
            inactive_era_count: 4,
            total_reward_points: 5,
            unclaimed_era_indices: vec![7, 9],
            blocks_authored: Some(6),
            reward_points: Some(7),
            heartbeat_received: Some(true),
            onekv_candidate_record_id: Some(8),
            onekv_binary_version: Some("v0.9".to_string()),
            onekv_rank: Some(9),
            onekv_location: Some("Paris".to_string()),
            onekv_is_valid: Some(false),
        }),
    );
    assert_eq!(details.account.discovered_at, Some(5));
    assert_eq!(details.slash_count, 1);
    assert_eq!(details.offline_offence_count, 2);
    assert_eq!(details.active_era_count, 3);
    assert_eq!(details.inactive_era_count, 4);
    assert_eq!(details.total_reward_points, 5);
    assert_eq!(details.unclaimed_era_indices, vec![7, 9]);
    assert_eq!(details.blocks_authored, Some(6));
    assert_eq!(details.reward_points, Some(7));
    assert_eq!(details.heartbeat_received, Some(true));
    assert_eq!(details.onekv_candidate_record_id, Some(8));
    assert_eq!(details.onekv_binary_version, Some("v0.9".to_string()));
    assert_eq!(details.onekv_rank, Some(9));
    assert_eq!(details.onekv_location, Some("Paris".to_string()));
    assert_eq!(details.onekv_is_valid, Some(false));
    apply_patch(
        &mut details,
        ValidatorPatch::Identity(Some(IdentityRegistration {
            display: Some("Alice".to_string()),
            legal: None,
            web: None,
            email: None,
            twitter: None,
            confirmed: true,
        })),
    );
    apply_patch(
        &mut details,
        ValidatorPatch::Parent(ParentAccount { id: account(2), identity: None }),
    );
    assert_eq!(details.account.identity.as_ref().unwrap().display, Some("Alice".to_string()));
    assert_eq!(details.account.parent.as_ref().unwrap().id, account(2));
}

#[test]
fn reads_payee() {
    assert_eq!(decode_payee(&[0]), Some(RewardDestination::Staked));
    assert_eq!(decode_payee(&[1]), Some(RewardDestination::Stash));
    assert_eq!(decode_payee(&[2]), Some(RewardDestination::Controller));
    assert_eq!(decode_payee(&[4]), Some(RewardDestination::Nowhere));
    let mut to_account = vec![3];
    to_account.extend_from_slice(&[6u8; 32]);
    assert_eq!(decode_payee(&to_account), Some(RewardDestination::Account(account(6))));
    assert_eq!(decode_payee(&to_account[..32]), None);
    assert_eq!(decode_payee(&[5]), None);
    assert_eq!(decode_payee(&[]), None);
}

#[test]
fn reads_preferences_and_ledger() {
    assert_eq!(
        decode_preferences(&[0x02, 0x5A, 0x62, 0x02, 0x01]),
        Some(ValidatorPreferences { commission_per_billion: 10_000_000, blocks_nominations: true })
    );
    assert_eq!(
        decode_preferences(&[0x00, 0x00]),
        Some(ValidatorPreferences { commission_per_billion: 0, blocks_nominations: false })
    );
    assert_eq!(decode_preferences(&[0x00]), None);
    assert_eq!(decode_preferences(&[0x00, 0x02]), None);
    assert_eq!(decode_preferences(&[]), None);
    let mut ledger = vec![4u8; 32];
    ledger.extend_from_slice(&[0x0B, 0x00, 0x40, 0x7A, 0x10, 0xF3, 0x5A]);
    ledger.extend_from_slice(&[0x28]);
    ledger.extend_from_slice(&[0x00, 0x00]);
    assert_eq!(
        decode_ledger(&ledger),
        Some(Stake {
            stash_account_id: account(4),
            total_amount: 100_000_000_000_000,
            active_amount: 10,
        })
    );
    assert_eq!(decode_ledger(&ledger[..33]), None);
    assert_eq!(decode_ledger(&ledger[..39]), None);
    assert_eq!(decode_ledger(&[4u8; 31]), None);
}

#[test]
fn reads_nomination() {
    let mut data = vec![0x08];
    data.extend_from_slice(&[1u8; 32]);
    data.extend_from_slice(&[2u8; 32]);
    data.extend_from_slice(&77u32.to_le_bytes());
    data.push(0);
    let read = decode_nomination(&data, account(9)).unwrap();
    assert_eq!(read.nominator_account_id, account(9));
    assert_eq!(read.target_account_ids, vec![account(1), account(2)]);
    assert_eq!(read.submission_era_index, 77);
    assert_eq!(read.controller_account_id, None);
    assert!(read.targets(&account(2)));
    assert!(!read.targets(&account(3)));
    assert!(decode_nomination(&data[..67], account(9)).is_none());
    assert!(decode_nomination(&[], account(9)).is_none());
    assert_eq!(
        decode_nomination(&[0x00, 1, 0, 0, 0], account(9)).unwrap().target_account_ids,
        vec![]
    );
}

#[test]
fn storage_answers_become_patches() {
    let changes = vec![
        change(account(1), Some(vec![0xAB, 0xCD])),
        change(account(2), None),
        StorageChange { key: vec![1, 2, 3], data: Some(vec![1]) },
        change(account(3), Some(vec![])),
    ];
    let patches = patches_from_changes(ReadKind::NextKeys, &changes);
    assert_eq!(patches.len(), 2);
    assert_eq!(patches[0].0, account(1));
    assert!(matches!(&patches[0].1, ValidatorPatch::NextSessionKeys(keys) if keys == "0xabcd"));
    assert_eq!(patches[1].0, account(3));
    assert!(matches!(&patches[1].1, ValidatorPatch::NextSessionKeys(keys) if keys == "0x"));
    let slashes = patches_from_changes(ReadKind::Slash, &changes);
    assert_eq!(slashes.len(), 2);
    assert!(matches!(slashes[0].1, ValidatorPatch::Slashed));
    let payees = patches_from_changes(
        ReadKind::Payee,
        &vec![change(account(1), Some(vec![1])), change(account(2), Some(vec![9]))],
    );
    assert_eq!(payees.len(), 1);
    assert!(matches!(payees[0].1, ValidatorPatch::Payee(RewardDestination::Stash)));
    let preferences = patches_from_changes(
        ReadKind::Preferences,
        &vec![change(account(1), Some(vec![0x04, 0x00])), change(account(2), Some(vec![]))],
    );
    assert_eq!(preferences.len(), 1);
    assert!(matches!(
        preferences[0].1,
        ValidatorPatch::Preferences(ValidatorPreferences {
            commission_per_billion: 1,
            blocks_nominations: false
        })
    ));
}

#[test]
fn storage_answers_become_nominations_controllers_and_ledgers() {
    let mut nominators = vec![0x04];
    nominators.extend_from_slice(&[5u8; 32]);
    nominators.extend_from_slice(&3u32.to_le_bytes());
    let nominations = nominations_from_changes(&vec![
        change(account(1), Some(nominators)),
        change(account(2), Some(vec![0xFF])),
        change(account(3), None),
    ]);
    assert_eq!(nominations.len(), 1);
    assert_eq!(nominations[0].nominator_account_id, account(1));
    assert_eq!(nominations[0].target_account_ids, vec![account(5)]);
    let bonded = bonded_from_changes(&vec![
        change(account(1), Some(vec![11u8; 32])),
        change(account(5), Some(vec![15u8; 32])),
        change(account(6), Some(vec![1, 2])),
    ]);
    assert_eq!(bonded, vec![(account(1), account(11)), (account(5), account(15))]);
    assert_eq!(controllers_of(&bonded), vec![account(11), account(15)]);
    let mut ledger = vec![1u8; 32];
    ledger.extend_from_slice(&[0x28, 0x14]);
    let ledgers = ledgers_from_changes(&vec![
        StorageChange { key: vec![], data: Some(ledger) },
        StorageChange { key: vec![], data: Some(vec![1]) },
        StorageChange { key: vec![], data: None },
    ]);
    assert_eq!(
        ledgers,
        vec![Stake { stash_account_id: account(1), total_amount: 10, active_amount: 5 }]
    );
}

#[test]
fn controllers_and_stakes_go_to_nominators_first() {
    let mut nominations =
        vec![nomination(account(1), vec![account(5)]), nomination(account(2), vec![account(5)])];
    nominations[0].controller_account_id = None;
    nominations[1].controller_account_id = None;
    let patches = assign_controllers(
        &mut nominations,
        &vec![
            (account(1), account(11)),
            (account(5), account(15)),
            (account(1), account(12)),
        ],
    );
    assert_eq!(nominations[0].controller_account_id, Some(account(12)));
    assert_eq!(nominations[1].controller_account_id, None);
    assert_eq!(patches.len(), 1);
    assert_eq!(patches[0].0, account(5));
    assert!(matches!(patches[0].1, ValidatorPatch::Controller(id) if id == account(15)));
    let stake = |id: AccountId, total: u128| Stake {
        stash_account_id: id,
        total_amount: total,
        active_amount: total,
    };
    let patches =
        assign_stakes(&mut nominations, &vec![stake(account(2), 20), stake(account(5), 50)]);
    assert_eq!(nominations[1].stake.total_amount, 20);
    assert_eq!(nominations[0].stake.total_amount, 0);
    assert_eq!(patches.len(), 1);
    assert!(matches!(patches[0].1, ValidatorPatch::SelfStake(s) if s.total_amount == 50));
}

#[test]
fn queued_keys_tell_who_is_active_next() {
    let mut data = vec![0x08];
    data.extend_from_slice(&[1u8; 32]);
    data.extend_from_slice(&[0xAA; 192]);
    data.extend_from_slice(&[2u8; 32]);
    data.extend_from_slice(&[0xBB; 192]);
    let patches = queued_keys_patches(&data).unwrap();
    assert_eq!(patches.len(), 2);
    assert_eq!(patches[0].0, account(1));
    assert_eq!(patches[1].0, account(2));
    let expected = format!("0x{}", "bb".repeat(192));
    assert!(matches!(&patches[1].1, ValidatorPatch::QueuedKeys(keys) if *keys == expected));
    assert!(queued_keys_patches(&data[..data.len() - 1]).is_none());
    assert!(queued_keys_patches(&[]).is_none());
    assert_eq!(queued_keys_patches(&[0x00]).unwrap().len(), 0);
    let mut set = ValidatorSet::from_intentions(&vec![], &vec![account(1), account(2)]);
    set.apply_patches(vec![
        (account(1), ValidatorPatch::NextSessionKeys(format!("0x{}", "aa".repeat(192)))),
        (account(2), ValidatorPatch::NextSessionKeys("0x00".to_string())),
    ]);
    set.apply_patches(patches);
    assert!(set.validators()[0].active_next_session);
    assert!(!set.validators()[1].active_next_session);
}

fn field(text: &str) -> Vec<u8> {
    let mut bytes = vec![text.len() as u8 + 1];
    bytes.extend_from_slice(text.as_bytes());
    bytes
}

fn identity_bytes(judgement: u8, display: &str, twitter: &str) -> Vec<u8> {
    let mut bytes = vec![0x08];
    bytes.extend_from_slice(&0u32.to_le_bytes());
    bytes.push(1);
    bytes.extend_from_slice(&5u128.to_le_bytes());
    bytes.extend_from_slice(&1u32.to_le_bytes());
    bytes.push(judgement);
    bytes.extend_from_slice(&100u128.to_le_bytes());
    bytes.push(0x04);
    bytes.extend_from_slice(&field("key"));
    bytes.extend_from_slice(&field("value"));
    bytes.extend_from_slice(&field(display));
    bytes.push(0);
    bytes.extend_from_slice(&field("https://subvt.io"));
    bytes.push(34);
    bytes.extend_from_slice(&[0x11; 32]);
    bytes.extend_from_slice(&field("a@b.c"));
    bytes.push(1);
    bytes.extend_from_slice(&[0x22; 20]);
    bytes.push(0);
    bytes.extend_from_slice(&field(twitter));
    bytes
}

#[test]
fn reads_identity() {
    let identity = IdentityRegistration::from_bytes(&identity_bytes(3, "Alice", "@alice")).unwrap();
    assert_eq!(identity.display, Some("Alice".to_string()));
    assert_eq!(identity.legal, None);
    assert_eq!(identity.web, Some("https://subvt.io".to_string()));
    assert_eq!(identity.email, Some("a@b.c".to_string()));
    assert_eq!(identity.twitter, Some("@alice".to_string()));
    assert!(identity.confirmed);
    let unconfirmed = IdentityRegistration::from_bytes(&identity_bytes(5, "Bob", "")).unwrap();
    assert!(!unconfirmed.confirmed);
    assert_eq!(unconfirmed.twitter, Some("".to_string()));
    let bytes = identity_bytes(3, "Alice", "@alice");
    assert!(IdentityRegistration::from_bytes(&bytes[..bytes.len() - 1]).is_none());
    assert!(IdentityRegistration::from_bytes(&identity_bytes(7, "Alice", "")).is_none());
    assert!(IdentityRegistration::from_bytes(&[]).is_none());
    let _ = IdentityView {
        display: None,
        legal: None,
        web: None,
        email: None,
        twitter: None,
        confirmed: false,
    };
}

#[test]
fn identities_become_patches_for_validators_and_their_parents() {
    let changes = vec![
        change(account(1), Some(identity_bytes(2, "Alice", ""))),
        change(account(2), None),
        change(account(3), Some(vec![0xFF])),
    ];
    let patches = identity_patches(&changes);
    assert_eq!(patches.len(), 2);
    assert!(
        matches!(&patches[0].1, ValidatorPatch::Identity(Some(identity)) if identity.display == Some("Alice".to_string()))
    );
    assert_eq!(patches[1].0, account(2));
    assert!(matches!(&patches[1].1, ValidatorPatch::Identity(None)));
    let supers = vec![(account(10), account(1)), (account(11), account(2)), (account(12), account(1))];
    let parents = parent_patches(&supers, &changes);
    assert_eq!(parents.len(), 2);
    assert_eq!(parents[0].0, account(10));
    assert_eq!(parents[1].0, account(12));
    assert!(
        matches!(&parents[0].1, ValidatorPatch::Parent(parent) if parent.id == account(1) && parent.identity.as_ref().unwrap().display == Some("Alice".to_string()))
    );
}

#[test]
fn reads_stakers_of_an_era() {
    let mut exposure = vec![0x28, 0x0C, 0x04];
    exposure.extend_from_slice(&[7u8; 32]);
    exposure.push(0x1C);
    let stakers = stakers_from_changes(&vec![
        change(account(1), Some(exposure.clone())),
        change(account(2), Some(vec![0x28])),
    ]);
    assert_eq!(stakers.len(), 1);
    assert_eq!(stakers[0].account_id, account(1));
    assert_eq!(stakers[0].total_stake, 10);
    assert_eq!(stakers[0].self_stake, 3);
    assert_eq!(stakers[0].nominators.len(), 1);
    assert_eq!(stakers[0].nominators[0].account_id, account(7));
    assert_eq!(stakers[0].nominators[0].stake, 7);
}
