use subvt::account::AccountId;
use subvt::argument::{Argument, ArgumentDecodeError, ArgumentPrimitive};
use subvt::argument_meta::ArgumentMeta;
use subvt::chain_values::{
    read_vote, DispatchClass, DispatchError, DispatchInfo, DispatchOutcome, Tally, Timepoint,
};
use subvt::event::{
    AccountVote, Conviction, DemocracyColumns, DemocracyEvent, EventStep, PalletEvent,
    SubstrateEvent, Vote, VoteThreshold,
};
use subvt::event::process_event;
use subvt::event_record::{
    decode_event_record, decode_events, events_from_records, get_pallet, EventDecodeError,
    EventRecord, Phase,
};
use subvt::metadata::{Metadata, ModuleConstantMetadata};
use subvt::metadata_convert::{RawEvent, RawModule};
use subvt::metadata_read::{RawMetadata, META_RESERVED};
use subvt::validator::{RewardDestination, ValidatorPreferences};

fn event_constant(name: &str, value: Vec<u8>) -> ModuleConstantMetadata {
    ModuleConstantMetadata {
        name: name.to_string(),
        ty: "u64".to_string(),
        value,
        documentation: vec![],
    }
}

fn event_module(
    index: u8,
    name: &str,
    constants: Vec<ModuleConstantMetadata>,
    events: Vec<(&str, Vec<&str>)>,
) -> RawModule {
    RawModule {
        index,
        name: name.to_string(),
        storage: None,
        calls: None,
        events: Some(
            events
                .into_iter()
                .map(|(name, arguments)| RawEvent {
                    name: name.to_string(),
                    arguments: arguments.into_iter().map(|ty| ty.to_string()).collect(),
                    documentation: vec![],
                })
                .collect(),
        ),
        constants,
        errors: vec![],
    }
}

fn event_modules() -> Vec<RawModule> {
    let mut version = vec![0x04, b'k', 0x04, b'p'];
    version.extend_from_slice(&[0u8; 12]);
    version.push(0x00);
    version.extend_from_slice(&1u32.to_le_bytes());
    vec![
        event_module(
            0,
            "System",
            vec![event_constant("Version", version)],
            vec![
                ("ExtrinsicSuccess", vec!["DispatchInfo"]),
                ("ExtrinsicFailed", vec!["DispatchError", "DispatchInfo"]),
            ],
        ),
        event_module(
            1,
            "Babe",
            vec![
                event_constant("ExpectedBlockTime", 6000u64.to_le_bytes().to_vec()),
                event_constant("EpochDuration", 10u64.to_le_bytes().to_vec()),
            ],
            vec![],
        ),
        event_module(
            2,
            "Staking",
            vec![
                event_constant("SessionsPerEra", 6u32.to_le_bytes().to_vec()),
                event_constant("MaxNominations", 16u32.to_le_bytes().to_vec()),
            ],
            vec![("Reward", vec!["AccountId", "Balance"])],
        ),
        event_module(
            13,
            "Democracy",
            vec![],
            vec![
                ("Proposed", vec!["PropIndex", "Balance"]),
                ("Started", vec!["ReferendumIndex", "VoteThreshold"]),
                ("Voted", vec!["AccountId", "ReferendumIndex", "AccountVote<BalanceOf<T>>"]),
                ("Tabled", vec!["PropIndex", "Balance", "Vec<AccountId>"]),
            ],
        ),
        event_module(
            24,
            "Utility",
            vec![],
            vec![("BatchInterrupted", vec!["u32", "DispatchError"]), ("BatchCompleted", vec![])],
        ),
        event_module(30, "Treasury", vec![], vec![("Spending", vec!["Balance"])]),
    ]
}

fn event_metadata() -> Metadata {
    Metadata::from(RawMetadata { magic: META_RESERVED, version: 13, modules: event_modules() })
        .unwrap()
}

fn primitive(name: &str, bytes: &[u8]) -> Result<(ArgumentPrimitive, usize), ArgumentDecodeError> {
    match Argument::decode(&ArgumentMeta::Primitive(name.to_string()), bytes, 0) {
        Ok((Argument::Primitive(value), next)) => Ok((*value, next)),
        Ok(_) => panic!("a primitive reads as a primitive"),
        Err(error) => Err(error),
    }
}

/// The record of a vote in referendum 42 by the account of the bytes `0xAA`, for,
/// locked three times, with a balance of a million.
fn voted_record() -> Vec<u8> {
    let mut bytes = vec![0x00];
    bytes.extend_from_slice(&3u32.to_le_bytes());
    bytes.extend_from_slice(&[13, 2]);
    bytes.extend_from_slice(&[0xAA; 32]);
    bytes.extend_from_slice(&42u32.to_le_bytes());
    bytes.extend_from_slice(&[0x00, 0x83]);
    bytes.extend_from_slice(&1_000_000u128.to_le_bytes());
    bytes.push(0x00);
    bytes
}

fn success_record(extrinsic: u32) -> Vec<u8> {
    let mut bytes = vec![0x00];
    bytes.extend_from_slice(&extrinsic.to_le_bytes());
    bytes.extend_from_slice(&[0, 0]);
    bytes.extend_from_slice(&125_000_000u64.to_le_bytes());
    bytes.extend_from_slice(&[1, 0]);
    bytes.push(0x00);
    bytes
}

#[test]
fn reads_what_a_dispatch_cost() {
    let mut bytes = 125_000_000u64.to_le_bytes().to_vec();
    bytes.extend_from_slice(&[2, 1, 0xFF]);
    assert_eq!(
        primitive("DispatchInfo", &bytes),
        Ok((
            ArgumentPrimitive::DispatchInfo(DispatchInfo {
                weight: 125_000_000,
                class: DispatchClass::Mandatory,
                pays_fee: false,
            }),
            10
        ))
    );
    bytes[8] = 3;
    assert_eq!(primitive("DispatchInfo", &bytes), Err(ArgumentDecodeError::MalformedVariant));
    bytes[8] = 0;
    bytes[9] = 2;
    assert_eq!(primitive("DispatchInfo", &bytes), Err(ArgumentDecodeError::MalformedVariant));
    assert_eq!(primitive("DispatchInfo", &bytes[..9]), Err(ArgumentDecodeError::Truncated));
    assert_eq!(primitive("DispatchInfo", &bytes[..7]), Err(ArgumentDecodeError::Truncated));
}

#[test]
fn reads_why_a_dispatch_failed() {
    assert_eq!(
        primitive("DispatchError", &[0]),
        Ok((ArgumentPrimitive::DispatchError(DispatchError::Other), 1))
    );
    assert_eq!(
        primitive("DispatchError", &[2, 9]),
        Ok((ArgumentPrimitive::DispatchError(DispatchError::BadOrigin), 1))
    );
    assert_eq!(
        primitive("DispatchError", &[3, 6, 17]),
        Ok((ArgumentPrimitive::DispatchError(DispatchError::Module { index: 6, error: 17 }), 3))
    );
    assert_eq!(
        primitive("DispatchError", &[6, 1]),
        Ok((ArgumentPrimitive::DispatchError(DispatchError::Token(1)), 2))
    );
    assert_eq!(
        primitive("DispatchError", &[7, 2]),
        Ok((ArgumentPrimitive::DispatchError(DispatchError::Arithmetic(2)), 2))
    );
    assert_eq!(primitive("DispatchError", &[3, 6]), Err(ArgumentDecodeError::Truncated));
    assert_eq!(primitive("DispatchError", &[7]), Err(ArgumentDecodeError::Truncated));
    assert_eq!(primitive("DispatchError", &[8]), Err(ArgumentDecodeError::MalformedVariant));
    assert_eq!(primitive("DispatchError", &[]), Err(ArgumentDecodeError::Truncated));
}

#[test]
fn reads_how_a_dispatch_ended() {
    assert_eq!(
        primitive("DispatchResult", &[0, 3]),
        Ok((ArgumentPrimitive::DispatchResult(DispatchOutcome::Succeeded), 1))
    );
    assert_eq!(
        primitive("DispatchResult", &[1, 3, 4, 5]),
        Ok((
            ArgumentPrimitive::DispatchResult(DispatchOutcome::Failed(DispatchError::Module {
                index: 4,
                error: 5
            })),
            4
        ))
    );
    assert_eq!(primitive("DispatchResult", &[1]), Err(ArgumentDecodeError::Truncated));
    assert_eq!(primitive("DispatchResult", &[2]), Err(ArgumentDecodeError::MalformedVariant));
}

#[test]
fn reads_votes_thresholds_and_tallies() {
    assert_eq!(read_vote(0x83), Some(Vote { aye: true, conviction: Conviction::Locked3x }));
    assert_eq!(read_vote(0x00), Some(Vote { aye: false, conviction: Conviction::Unlocked }));
    assert_eq!(read_vote(0x06), Some(Vote { aye: false, conviction: Conviction::Locked6x }));
    assert_eq!(read_vote(0x07), None);
    assert_eq!(read_vote(0x87), None);

    let mut standard = vec![0x00, 0x81];
    standard.extend_from_slice(&77u128.to_le_bytes());
    assert_eq!(
        primitive("AccountVote", &standard),
        Ok((
            ArgumentPrimitive::AccountVote(AccountVote::Standard {
                vote: Vote { aye: true, conviction: Conviction::Locked1x },
                balance: 77
            }),
            18
        ))
    );
    standard[1] = 0x7F;
    assert_eq!(primitive("AccountVote", &standard), Err(ArgumentDecodeError::MalformedVariant));
    let mut split = vec![0x01];
    split.extend_from_slice(&5u128.to_le_bytes());
    split.extend_from_slice(&9u128.to_le_bytes());
    assert_eq!(
        primitive("AccountVote<Balance>", &split),
        Ok((ArgumentPrimitive::AccountVote(AccountVote::Split { aye: 5, nay: 9 }), 33))
    );
    assert_eq!(primitive("AccountVote", &split[..32]), Err(ArgumentDecodeError::Truncated));
    assert_eq!(primitive("AccountVote", &[2]), Err(ArgumentDecodeError::MalformedVariant));

    assert_eq!(
        primitive("VoteThreshold", &[1]),
        Ok((ArgumentPrimitive::VoteThreshold(VoteThreshold::SuperMajorityAgainst), 1))
    );
    assert_eq!(
        primitive("VoteThreshold", &[2]),
        Ok((ArgumentPrimitive::VoteThreshold(VoteThreshold::SimpleMajority), 1))
    );
    assert_eq!(primitive("VoteThreshold", &[3]), Err(ArgumentDecodeError::MalformedVariant));

    let mut tally = 1u128.to_le_bytes().to_vec();
    tally.extend_from_slice(&2u128.to_le_bytes());
    tally.extend_from_slice(&3u128.to_le_bytes());
    assert_eq!(
        primitive("Tally<Balance>", &tally),
        Ok((ArgumentPrimitive::Tally(Tally { ayes: 1, nays: 2, turnout: 3 }), 48))
    );
    assert_eq!(primitive("Tally", &tally[..47]), Err(ArgumentDecodeError::Truncated));
}

#[test]
fn reads_timepoints_preferences_and_destinations() {
    let mut timepoint = 1_000u32.to_le_bytes().to_vec();
    timepoint.extend_from_slice(&2u32.to_le_bytes());
    assert_eq!(
        primitive("Timepoint<BlockNumber>", &timepoint),
        Ok((ArgumentPrimitive::Timepoint(Timepoint { height: 1_000, index: 2 }), 8))
    );
    assert_eq!(primitive("Timepoint", &timepoint[..7]), Err(ArgumentDecodeError::Truncated));

    // 50_000_000 parts per billion as a compact number of four bytes, then the flag
    let commission = ((50_000_000u32 << 2) | 0b10).to_le_bytes();
    let mut preferences = commission.to_vec();
    preferences.push(1);
    assert_eq!(
        primitive("ValidatorPrefs", &preferences),
        Ok((
            ArgumentPrimitive::ValidatorPreferences(ValidatorPreferences {
                commission_per_billion: 50_000_000,
                blocks_nominations: true
            }),
            5
        ))
    );
    preferences[4] = 2;
    assert_eq!(primitive("ValidatorPrefs", &preferences), Err(ArgumentDecodeError::MalformedBool));
    assert_eq!(primitive("ValidatorPrefs", &preferences[..4]), Err(ArgumentDecodeError::Truncated));
    assert_eq!(primitive("ValidatorPrefs", &[0x03]), Err(ArgumentDecodeError::MalformedCompact));

    let mut destination = vec![3];
    destination.extend_from_slice(&[7; 32]);
    assert_eq!(
        primitive("RewardDestination<AccountId>", &destination),
        Ok((
            ArgumentPrimitive::RewardDestination(RewardDestination::Account(AccountId::new(
                [7; 32]
            ))),
            33
        ))
    );
    assert_eq!(
        primitive("RewardDestination", &[4]),
        Ok((ArgumentPrimitive::RewardDestination(RewardDestination::Nowhere), 1))
    );
    assert_eq!(primitive("RewardDestination", &destination[..32]), Err(ArgumentDecodeError::Truncated));
    assert_eq!(primitive("RewardDestination", &[5]), Err(ArgumentDecodeError::MalformedVariant));
}

#[test]
fn names_of_indices_and_hashes_are_in_the_table() {
    for name in ["SpanIndex", "CoreIndex", "GroupIndex", "BountyIndex"] {
        assert_eq!(primitive(name, &7u32.to_le_bytes()), Ok((ArgumentPrimitive::U32(7), 4)));
    }
    assert_eq!(
        primitive("CallHash", &[9; 32]),
        Ok((ArgumentPrimitive::Hash(AccountId::new([9; 32])), 32))
    );
    assert_eq!(
        primitive("ValidatorId", &[9; 32]),
        Ok((ArgumentPrimitive::AccountId(AccountId::new([9; 32])), 32))
    );
    assert_eq!(
        primitive("Exposure", &[0; 64]),
        Err(ArgumentDecodeError::UnknownPrimitiveType("Exposure".to_string()))
    );
}

#[test]
fn a_vote_in_a_block_becomes_one_row() {
    let metadata = event_metadata();
    // eight events: seven successes, then the vote at index 7
    let mut bytes = vec![8 << 2];
    for extrinsic in 0..7 {
        bytes.extend_from_slice(&success_record(extrinsic));
    }
    bytes.extend_from_slice(&voted_record());

    let records = decode_events(&metadata, &bytes).unwrap();
    assert_eq!(records.len(), 8);
    assert_eq!(records[7].module_name, "Democracy");
    assert_eq!(records[7].event_name, "Voted");
    assert_eq!(records[7].phase, Phase::ApplyExtrinsic(3));
    assert!(records[7].topics.is_empty());

    let events = events_from_records(&records);
    assert_eq!(events.len(), 8);
    let (index, event) = &events[7];
    assert_eq!(*index, 7);
    match event {
        SubstrateEvent::Democracy(DemocracyEvent::Voted {
            extrinsic_index,
            account_id,
            referendum_index,
            vote,
        }) => {
            assert_eq!(*extrinsic_index, Some(3));
            assert_eq!(*account_id, AccountId::new([0xAA; 32]));
            assert_eq!(*referendum_index, 42);
            assert_eq!(
                *vote,
                AccountVote::Standard {
                    vote: Vote { aye: true, conviction: Conviction::Locked3x },
                    balance: 1_000_000
                }
            );
        }
        other => panic!("not a vote: {:?}", other),
    }
    match process_event("0xB10C", *index, event) {
        EventStep::PersistDemocracy(row) => {
            assert_eq!(row.block_hash, "0xB10C");
            assert_eq!(row.event_index, 7);
            assert_eq!(row.extrinsic_index, Some(3));
            match row.columns {
                DemocracyColumns::Voted {
                    account_id,
                    referendum_index,
                    aye_balance,
                    nay_balance,
                    conviction,
                } => {
                    assert_eq!(account_id, AccountId::new([0xAA; 32]));
                    assert_eq!(referendum_index, 42);
                    assert_eq!(aye_balance, Some(1_000_000));
                    assert_eq!(nay_balance, None);
                    assert_eq!(conviction, Some(3));
                }
                other => panic!("not the columns of a vote: {:?}", other),
            }
        }
        other => panic!("not persisted: {:?}", other),
    }
    match &events[0].1 {
        SubstrateEvent::System(PalletEvent { name, extrinsic_index }) => {
            assert_eq!(name, "ExtrinsicSuccess");
            assert_eq!(*extrinsic_index, Some(0));
        }
        other => panic!("not an event of the system: {:?}", other),
    }
    assert!(matches!(process_event("0xB10C", 0, &events[0].1), EventStep::Persist(_)));
}

#[test]
fn reads_one_record_with_its_topics() {
    let metadata = event_metadata();
    let mut bytes = vec![0xEE, 0x01, 2, 0];
    bytes.extend_from_slice(&[5; 32]);
    bytes.extend_from_slice(&12u128.to_le_bytes());
    bytes.push(2 << 2);
    bytes.extend_from_slice(&[1; 32]);
    bytes.extend_from_slice(&[2; 32]);
    bytes.push(0xEE);
    let (record, next) = decode_event_record(&metadata, &bytes, 1).unwrap();
    assert_eq!(next, bytes.len() - 1);
    assert_eq!(record.phase, Phase::Finalization);
    assert_eq!(record.phase.extrinsic_index(), None);
    assert_eq!(record.module_name, "Staking");
    assert_eq!(record.event_name, "Reward");
    assert_eq!(
        record.arguments,
        vec![
            Argument::Primitive(Box::new(ArgumentPrimitive::AccountId(AccountId::new([5; 32])))),
            Argument::Primitive(Box::new(ArgumentPrimitive::Balance(12))),
        ]
    );
    assert_eq!(record.topics, vec![AccountId::new([1; 32]), AccountId::new([2; 32])]);
    match SubstrateEvent::from_record(&record) {
        SubstrateEvent::Staking(PalletEvent { name, extrinsic_index }) => {
            assert_eq!(name, "Reward");
            assert_eq!(extrinsic_index, None);
        }
        other => panic!("not an event of staking: {:?}", other),
    }
}

#[test]
fn records_that_do_not_read_tell_why() {
    let metadata = event_metadata();
    assert_eq!(decode_events(&metadata, &[]).err(), Some(EventDecodeError::MalformedCount));
    assert_eq!(decode_events(&metadata, &[0x03]).err(), Some(EventDecodeError::MalformedCount));
    assert_eq!(decode_events(&metadata, &[0]).unwrap().len(), 0);
    assert_eq!(decode_events(&metadata, &[1 << 2]).err(), Some(EventDecodeError::Truncated));
    assert_eq!(
        decode_events(&metadata, &[1 << 2, 3, 0, 0]).err(),
        Some(EventDecodeError::MalformedPhase)
    );
    assert_eq!(
        decode_events(&metadata, &[1 << 2, 0, 1, 0]).err(),
        Some(EventDecodeError::Truncated)
    );
    assert_eq!(decode_events(&metadata, &[1 << 2, 1, 0]).err(), Some(EventDecodeError::Truncated));
    assert_eq!(
        decode_events(&metadata, &[1 << 2, 1, 99, 0]).err(),
        Some(EventDecodeError::UnknownModule(99))
    );
    assert_eq!(
        decode_events(&metadata, &[1 << 2, 1, 2, 1]).err(),
        Some(EventDecodeError::UnknownEvent(1))
    );
    assert_eq!(
        decode_events(&metadata, &[1 << 2, 1, 24, 0, 1, 0, 0]).err(),
        Some(EventDecodeError::Argument(ArgumentDecodeError::Truncated))
    );
    assert_eq!(
        decode_events(&metadata, &[1 << 2, 1, 24, 0, 1, 0, 0, 0, 9]).err(),
        Some(EventDecodeError::Argument(ArgumentDecodeError::MalformedVariant))
    );
    // the batch was completed, but the topics are cut short
    assert_eq!(decode_events(&metadata, &[1 << 2, 1, 24, 1]).err(), Some(EventDecodeError::MalformedCount));
    assert_eq!(
        decode_events(&metadata, &[1 << 2, 1, 24, 1, 1 << 2, 7]).err(),
        Some(EventDecodeError::Truncated)
    );
    // a second record that does not read fails the whole
    assert_eq!(
        decode_events(&metadata, &[2 << 2, 1, 24, 1, 0, 2]).err(),
        Some(EventDecodeError::Truncated)
    );
    let two = decode_events(&metadata, &[2 << 2, 1, 24, 1, 0, 2, 24, 1, 0]).unwrap();
    assert_eq!(two.len(), 2);
    assert_eq!(two[1].phase, Phase::Initialization);
}

#[test]
fn events_that_are_not_told_apart_keep_their_names() {
    let record = |module: &str, event: &str, arguments: Vec<Argument>| EventRecord {
        phase: Phase::ApplyExtrinsic(1),
        module_name: module.to_string(),
        event_name: event.to_string(),
        arguments,
        topics: vec![],
    };
    let number = |n: u32| Argument::Primitive(Box::new(ArgumentPrimitive::U32(n)));
    let balance = |n: u128| Argument::Primitive(Box::new(ArgumentPrimitive::Balance(n)));
    match SubstrateEvent::from_record(&record("Treasury", "Spending", vec![balance(1)])) {
        SubstrateEvent::Other { module_name, call_name } => {
            assert_eq!(module_name, "Treasury");
            assert_eq!(call_name, "Spending");
        }
        other => panic!("told apart: {:?}", other),
    }
    // an event of democracy that is not among the known ones
    match SubstrateEvent::from_record(&record("Democracy", "Tabled", vec![number(1), balance(2)])) {
        SubstrateEvent::Other { module_name, call_name } => {
            assert_eq!(module_name, "Democracy");
            assert_eq!(call_name, "Tabled");
        }
        other => panic!("told apart: {:?}", other),
    }
    // a known one with an argument too many, or of another kind
    assert!(matches!(
        SubstrateEvent::from_record(&record("Democracy", "Passed", vec![number(1), number(2)])),
        SubstrateEvent::Other { .. }
    ));
    assert!(matches!(
        SubstrateEvent::from_record(&record("Democracy", "Passed", vec![balance(1)])),
        SubstrateEvent::Other { .. }
    ));
    assert!(matches!(
        SubstrateEvent::from_record(&record("Democracy", "Passed", vec![number(9)])),
        SubstrateEvent::Democracy(DemocracyEvent::Passed {
            extrinsic_index: Some(1),
            referendum_index: 9
        })
    ));
    assert!(matches!(
        SubstrateEvent::from_record(&record("Democracy", "Proposed", vec![number(4), balance(10)])),
        SubstrateEvent::Democracy(DemocracyEvent::Proposed {
            extrinsic_index: Some(1),
            proposal_index: 4,
            deposit: 10
        })
    ));
    assert!(matches!(
        SubstrateEvent::from_record(&record(
            "Democracy",
            "Started",
            vec![
                number(4),
                Argument::Primitive(Box::new(ArgumentPrimitive::VoteThreshold(
                    VoteThreshold::SimpleMajority
                )))
            ]
        )),
        SubstrateEvent::Democracy(DemocracyEvent::Started {
            extrinsic_index: Some(1),
            referendum_index: 4,
            vote_threshold: VoteThreshold::SimpleMajority
        })
    ));
    assert!(matches!(
        SubstrateEvent::from_record(&record("ImOnline", "AllGood", vec![])),
        SubstrateEvent::ImOnline(_)
    ));
    for (name, persisted) in [
        ("Democracy", true),
        ("Identity", false),
        ("ImOnline", true),
        ("Multisig", false),
        ("Offences", false),
        ("Proxy", false),
        ("Referenda", true),
        ("Staking", true),
        ("System", true),
        ("Utility", false),
        ("Balances", false),
    ] {
        assert_eq!(get_pallet(&name.to_string()).is_persisted(), persisted, "{}", name);
    }
}

#[test]
fn metadata_with_the_events_of_a_runtime_is_understood() {
    let metadata = event_metadata();
    assert!(metadata.check_event_primitive_argument_support().is_ok());
    let mut modules = event_modules();
    modules.push(event_module(40, "ImOnline", vec![], vec![("SomeOffline", vec!["Vec<IdentificationTuple>"])]));
    let refused = Metadata::from(RawMetadata { magic: META_RESERVED, version: 13, modules });
    assert!(refused.is_err());
}

#[test]
fn calls_and_events_are_listed_module_by_module() {
    let metadata = event_metadata();
    assert_eq!(
        metadata.log_all_events(),
        vec![
            "System.ExtrinsicSuccess(DispatchInfo, )",
            "System.ExtrinsicFailed(DispatchError, DispatchInfo, )",
            "Staking.Reward(AccountId, Balance, )",
            "Democracy.Proposed(PropIndex, Balance, )",
            "Democracy.Started(ReferendumIndex, VoteThreshold, )",
            "Democracy.Voted(AccountId, ReferendumIndex, AccountVote<BalanceOf<T>>, )",
            "Democracy.Tabled(PropIndex, Balance, Vec<AccountId>, )",
            "Utility.BatchInterrupted(u32, DispatchError, )",
            "Utility.BatchCompleted()",
            "Treasury.Spending(Balance, )",
        ]
    );
    assert!(metadata.log_all_calls().is_empty());
}
