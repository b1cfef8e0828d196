use subvt::account::AccountId;
use subvt::materializer::StorageChange;
use subvt::metadata::{
    HasherKind, Metadata, ModuleConstantMetadata, StorageEntryModifier, StorageEntryShape,
    StorageEntryType,
};
use subvt::metadata_convert::{RawModule, RawStorage, RawStorageEntry};
use subvt::metadata_read::{RawMetadata, META_RESERVED};
use subvt::reconstruction::{request_keys, Reconstruction, Request, Stage};
use subvt::storage::{get_storage_map_key, get_storage_plain_key, hash};
use subvt::validator::RewardDestination;
use subvt::validator_details::ValidatorDetails;

fn id(n: u8) -> AccountId {
    AccountId::new([n; 32])
}

fn plain(name: &str) -> RawStorageEntry {
    RawStorageEntry {
        name: name.to_string(),
        modifier: StorageEntryModifier::Default,
        ty: StorageEntryType::V13(StorageEntryShape::Plain("Vec<u8>".to_string())),
        default: vec![],
    }
}

fn map(name: &str, hasher: HasherKind) -> RawStorageEntry {
    RawStorageEntry {
        name: name.to_string(),
        modifier: StorageEntryModifier::Optional,
        ty: StorageEntryType::V13(StorageEntryShape::SingleMap {
            hasher,
            key: "T::AccountId".to_string(),
            value: "Vec<u8>".to_string(),
            unused: false,
        }),
        default: vec![],
    }
}

fn double_map(name: &str, hasher: HasherKind, key2_hasher: HasherKind) -> RawStorageEntry {
    RawStorageEntry {
        name: name.to_string(),
        modifier: StorageEntryModifier::Optional,
        ty: StorageEntryType::V13(StorageEntryShape::DoubleMap {
            hasher,
            key1: "EraIndex".to_string(),
            key2: "T::AccountId".to_string(),
            value: "Vec<u8>".to_string(),
            key2_hasher,
        }),
        default: vec![],
    }
}

fn stored_constant(name: &str, value: Vec<u8>) -> ModuleConstantMetadata {
    ModuleConstantMetadata {
        name: name.to_string(),
        ty: "u64".to_string(),
        value,
        documentation: vec![],
    }
}

fn storing_module(
    index: u8,
    name: &str,
    constants: Vec<ModuleConstantMetadata>,
    entries: Vec<RawStorageEntry>,
) -> RawModule {
    RawModule {
        index,
        name: name.to_string(),
        storage: Some(RawStorage { prefix: name.to_string(), entries }),
        calls: None,
        events: None,
        constants,
        errors: vec![],
    }
}

fn storing_metadata() -> Metadata {
    let mut version = vec![0x04, b'k', 0x04, b'p'];
    version.extend_from_slice(&[0u8; 12]);
    version.push(0x00);
    version.extend_from_slice(&1u32.to_le_bytes());
    Metadata::from(RawMetadata {
        magic: META_RESERVED,
        version: 13,
        modules: vec![
            storing_module(0, "System", vec![stored_constant("Version", version)], vec![]),
            storing_module(
                1,
                "Babe",
                vec![
                    stored_constant("ExpectedBlockTime", 6000u64.to_le_bytes().to_vec()),
                    stored_constant("EpochDuration", 10u64.to_le_bytes().to_vec()),
                ],
                vec![],
            ),
            storing_module(
                2,
                "Staking",
                vec![
                    stored_constant("SessionsPerEra", 6u32.to_le_bytes().to_vec()),
                    stored_constant("MaxNominations", 16u32.to_le_bytes().to_vec()),
                ],
                vec![
                    map("Payee", HasherKind::Twox64Concat),
                    double_map(
                        "ValidatorSlashInEra",
                        HasherKind::Twox64Concat,
                        HasherKind::Twox64Concat,
                    ),
                    map("Nominators", HasherKind::Twox64Concat),
                    map("Bonded", HasherKind::Twox64Concat),
                    map("Ledger", HasherKind::Blake2_128Concat),
                    map("Validators", HasherKind::Twox64Concat),
                ],
            ),
            storing_module(
                3,
                "Session",
                vec![],
                vec![map("NextKeys", HasherKind::Twox64Concat), plain("QueuedKeys")],
            ),
            storing_module(
                4,
                "Identity",
                vec![],
                vec![
                    map("IdentityOf", HasherKind::Twox64Concat),
                    map("SuperOf", HasherKind::Blake2_128Concat),
                ],
            ),
        ],
    })
    .unwrap()
}

fn accounts_asked(request: &Request) -> Vec<AccountId> {
    match request {
        Request::Values { accounts, .. } => accounts.clone(),
        _ => vec![],
    }
}

/// The answer to a request for values: for each account asked for, in their
/// order, what `value` gives for it.
fn answer(
    metadata: &Metadata,
    request: &Request,
    value: &dyn Fn(AccountId) -> Option<Vec<u8>>,
) -> Vec<StorageChange> {
    let keys = request_keys(metadata, request).unwrap();
    let accounts = accounts_asked(request);
    assert_eq!(keys.len(), accounts.len());
    keys.into_iter()
        .zip(accounts)
        .map(|(key, account)| StorageChange { key, data: value(account) })
        .collect()
}

fn nomination_bytes(targets: &[AccountId], era: u32) -> Vec<u8> {
    let mut bytes = vec![(targets.len() as u8) << 2];
    for target in targets {
        bytes.extend_from_slice(target.as_slice());
    }
    bytes.extend_from_slice(&era.to_le_bytes());
    bytes.push(0);
    bytes
}

fn ledger_bytes(stash: AccountId, total: u8, active: u8) -> Vec<u8> {
    let mut bytes = stash.as_slice().to_vec();
    bytes.push(total << 2);
    bytes.push(active << 2);
    bytes.extend_from_slice(&[0, 0]);
    bytes
}

fn text_field(text: &str) -> Vec<u8> {
    let mut bytes = vec![text.len() as u8 + 1];
    bytes.extend_from_slice(text.as_bytes());
    bytes
}

/// An identity with one judgement, a reasonable one, and a display name.
fn registration_bytes(display: &str) -> Vec<u8> {
    let mut bytes = vec![0x04];
    bytes.extend_from_slice(&0u32.to_le_bytes());
    bytes.push(2);
    bytes.extend_from_slice(&100u128.to_le_bytes());
    bytes.push(0x00);
    bytes.extend_from_slice(&text_field(display));
    bytes.extend_from_slice(&[0, 0, 0, 0, 0, 0, 0]);
    bytes
}

fn reconstructed() -> Vec<ValidatorDetails> {
    let metadata = storing_metadata();
    let (v1, v2, v3) = (id(1), id(2), id(3));
    let (n1, n2, n3) = (id(11), id(12), id(13));
    let controller = |stash: AccountId| AccountId::new([stash.as_slice()[0] + 100; 32]);
    let mut reconstruction =
        Reconstruction::new(&vec![v1, v2], &vec![v1, v2, v3, v1], 5, 2);
    let mut stages = vec![];
    while !reconstruction.is_done() {
        let stage = reconstruction.stage();
        stages.push(stage);
        let request = reconstruction.request();
        let ids = accounts_asked(&request);
        let changes = match stage {
            Stage::NextKeys => {
                assert_eq!(ids, vec![v1, v2, v3]);
                answer(&metadata, &request, &|account| {
                    if account == v3 { None } else { Some(vec![account.as_slice()[0]; 192]) }
                })
            }
            Stage::QueuedKeys => {
                assert!(matches!(
                    request,
                    Request::Plain { module: "Session", item: "QueuedKeys" }
                ));
                let keys = request_keys(&metadata, &request).unwrap();
                assert_eq!(keys, vec![get_storage_plain_key("Session", "QueuedKeys")]);
                let mut data = vec![2 << 2];
                data.extend_from_slice(v1.as_slice());
                data.extend_from_slice(&[1; 192]);
                data.extend_from_slice(v2.as_slice());
                data.extend_from_slice(&[9; 192]);
                vec![StorageChange { key: keys[0].clone(), data: Some(data) }]
            }
            Stage::Payees => answer(&metadata, &request, &|account| {
                if account == v2 { Some(vec![2]) } else { None }
            }),
            Stage::Slashes => {
                assert!(matches!(request, Request::Values { era_index: Some(5), .. }));
                let keys = request_keys(&metadata, &request).unwrap();
                let mut expected = get_storage_plain_key("Staking", "ValidatorSlashInEra");
                expected.extend(hash(HasherKind::Twox64Concat, &5u32.to_le_bytes()));
                expected.extend(hash(HasherKind::Twox64Concat, v1.as_slice()));
                assert_eq!(keys[0], expected);
                answer(&metadata, &request, &|account| {
                    if account == v3 { Some(vec![0, 0]) } else { None }
                })
            }
            Stage::Nominators => {
                assert!(matches!(
                    request,
                    Request::Entries { module: "Staking", item: "Nominators" }
                ));
                let prefix = request_keys(&metadata, &request).unwrap().remove(0);
                assert_eq!(prefix, get_storage_plain_key("Staking", "Nominators"));
                [(n1, vec![v1]), (n2, vec![v1, v2]), (n3, vec![v1, id(99)])]
                    .into_iter()
                    .map(|(nominator, targets)| {
                        let mut key = prefix.clone();
                        key.extend(hash(HasherKind::Twox64Concat, nominator.as_slice()));
                        StorageChange { key, data: Some(nomination_bytes(&targets, 3)) }
                    })
                    .collect()
            }
            Stage::Bonded => {
                assert_eq!(ids, vec![n1, n2, n3, v1, v2, v3]);
                answer(&metadata, &request, &|stash| {
                    if stash == v3 { None } else { Some(controller(stash).as_slice().to_vec()) }
                })
            }
            Stage::Ledgers => {
                assert_eq!(
                    ids,
                    vec![controller(n1), controller(n2), controller(n3), controller(v1), controller(v2)]
                );
                let keys = request_keys(&metadata, &request).unwrap();
                assert_eq!(
                    keys[0],
                    get_storage_map_key(
                        "Staking",
                        "Ledger",
                        &subvt::metadata::StorageHasher::V13(HasherKind::Blake2_128Concat),
                        controller(n1).as_slice()
                    )
                );
                answer(&metadata, &request, &|account| {
                    let stash = AccountId::new([account.as_slice()[0] - 100; 32]);
                    Some(ledger_bytes(stash, stash.as_slice()[0], 1))
                })
            }
            Stage::Identities => {
                assert!(matches!(
                    request,
                    Request::Values { module: "Identity", item: "IdentityOf", .. }
                ));
                assert_eq!(ids, vec![v1, v2, v3]);
                answer(&metadata, &request, &|account| {
                    if account == v1 { Some(registration_bytes("Alice")) } else { None }
                })
            }
            Stage::Supers => {
                assert!(matches!(
                    request,
                    Request::Values { module: "Identity", item: "SuperOf", .. }
                ));
                answer(&metadata, &request, &|account| {
                    if account == v2 { Some(vec![50; 40]) } else { None }
                })
            }
            Stage::ParentIdentities => {
                assert_eq!(ids, vec![id(50)]);
                answer(&metadata, &request, &|_| Some(registration_bytes("Above")))
            }
            Stage::Preferences => {
                assert!(matches!(
                    request,
                    Request::Values { module: "Staking", item: "Validators", .. }
                ));
                answer(&metadata, &request, &|account| {
                    if account == v1 { Some(vec![40, 1]) } else { Some(vec![0, 0]) }
                })
            }
            Stage::Done => unreachable!(),
        };
        reconstruction.accept(changes);
    }
    assert!(matches!(reconstruction.request(), Request::Finished));
    assert_eq!(
        stages,
        vec![
            Stage::NextKeys,
            Stage::QueuedKeys,
            Stage::Payees,
            Stage::Slashes,
            Stage::Nominators,
            Stage::Bonded,
            Stage::Ledgers,
            Stage::Identities,
            Stage::Supers,
            Stage::ParentIdentities,
            Stage::Preferences,
        ]
    );
    reconstruction.accept(vec![]);
    assert_eq!(reconstruction.stage(), Stage::Done);
    reconstruction.into_validators()
}

#[test]
fn validators_of_a_block_are_put_together_stage_by_stage() {
    let validators = reconstructed();
    let (v1, v2, v3) = (&validators[0], &validators[1], &validators[2]);
    assert_eq!(validators.len(), 3);
    assert_eq!((v1.account.id, v2.account.id, v3.account.id), (id(1), id(2), id(3)));
    assert_eq!((v1.is_active, v2.is_active, v3.is_active), (true, true, false));

    assert_eq!(v1.next_session_keys, format!("0x{}", "01".repeat(192)));
    assert_eq!(v3.next_session_keys, "");
    assert_eq!(
        (v1.active_next_session, v2.active_next_session, v3.active_next_session),
        (true, false, false)
    );
    assert_eq!(v1.reward_destination, RewardDestination::Staked);
    assert_eq!(v2.reward_destination, RewardDestination::Controller);
    assert_eq!((v1.slashed, v2.slashed, v3.slashed), (false, false, true));

    assert_eq!(v1.controller_account_id, Some(id(101)));
    assert_eq!(v3.controller_account_id, None);
    assert_eq!(v1.self_stake.total_amount, 1);
    assert_eq!(v2.self_stake.total_amount, 2);
    assert_eq!(v3.self_stake.total_amount, 0);

    assert_eq!(v1.nominations.len(), 3);
    assert!(v1.oversubscribed);
    assert_eq!(v2.nominations.len(), 1);
    assert!(!v2.oversubscribed);
    assert!(v3.nominations.is_empty());
    let keys: Vec<u64> =
        v1.nominations.iter().map(|nomination| nomination.nominator_account_id.sort_key()).collect();
    assert!(keys.windows(2).all(|pair| pair[0] <= pair[1]));
    let second = &v2.nominations[0];
    assert_eq!(second.nominator_account_id, id(12));
    assert_eq!(second.controller_account_id, Some(id(112)));
    assert_eq!(second.submission_era_index, 3);
    assert_eq!(second.target_account_ids, vec![id(1), id(2)]);
    assert_eq!((second.stake.total_amount, second.stake.active_amount), (12, 1));

    let identity = v1.account.identity.as_ref().unwrap();
    assert_eq!(identity.display, Some("Alice".to_string()));
    assert!(identity.confirmed);
    assert!(v2.account.identity.is_none());
    assert!(v1.account.parent.is_none());
    let parent = v2.account.parent.as_ref().unwrap();
    assert_eq!(parent.id, id(50));
    assert_eq!(parent.identity.as_ref().unwrap().display, Some("Above".to_string()));
    assert!(v3.account.parent.is_none());
    assert_eq!(v1.preferences.commission_per_billion, 10);
    assert!(v1.preferences.blocks_nominations);
    assert!(!v2.preferences.blocks_nominations);
}

#[test]
fn reconstruction_of_the_same_answers_gives_the_same_validators() {
    let first = reconstructed();
    let second = reconstructed();
    assert_eq!(first.len(), second.len());
    for (one, other) in first.iter().zip(second.iter()) {
        assert!(one.equals(other));
        let order = |details: &ValidatorDetails| -> Vec<AccountId> {
            details.nominations.iter().map(|nomination| nomination.nominator_account_id).collect()
        };
        assert_eq!(order(one), order(other));
    }
}

#[test]
fn keys_are_built_by_what_the_metadata_says() {
    let metadata = storing_metadata();
    let payee = metadata.storage_entry("Staking", "Payee").unwrap();
    assert_eq!(payee.first_hasher(), Some(HasherKind::Twox64Concat));
    assert_eq!(payee.second_hasher(), None);
    assert_eq!(payee.prefix_key(), get_storage_plain_key("Staking", "Payee"));
    assert_eq!(
        payee.account_key(None, &id(7)),
        Some(get_storage_map_key(
            "Staking",
            "Payee",
            &subvt::metadata::StorageHasher::V13(HasherKind::Twox64Concat),
            id(7).as_slice()
        ))
    );
    // a map with one key has no keys by era
    assert_eq!(payee.account_key(Some(1), &id(7)), None);
    let slashes = metadata.storage_entry("Staking", "ValidatorSlashInEra").unwrap();
    assert_eq!(slashes.second_hasher(), Some(HasherKind::Twox64Concat));
    let by_era = slashes.account_key(Some(0x0102_0304), &id(7)).unwrap();
    let mut expected = get_storage_plain_key("Staking", "ValidatorSlashInEra");
    expected.extend(hash(HasherKind::Twox64Concat, &[4, 3, 2, 1]));
    expected.extend(hash(HasherKind::Twox64Concat, id(7).as_slice()));
    assert_eq!(by_era, expected);
    // a plain item has no keys for accounts
    let queued = metadata.storage_entry("Session", "QueuedKeys").unwrap();
    assert_eq!(queued.first_hasher(), None);
    assert_eq!(queued.account_key(None, &id(7)), None);

    assert!(metadata.storage_entry("Staking", "Nothing").is_none());
    assert!(metadata.storage_entry("Nothing", "Payee").is_none());
    let unknown = Request::Values {
        module: "Staking",
        item: "Nothing",
        era_index: None,
        accounts: vec![id(1)],
    };
    assert!(request_keys(&metadata, &unknown).is_none());
    let unkeyed = Request::Values {
        module: "Session",
        item: "QueuedKeys",
        era_index: None,
        accounts: vec![],
    };
    assert!(request_keys(&metadata, &unkeyed).is_none());
    assert_eq!(request_keys(&metadata, &Request::Finished), Some(vec![]));
}
