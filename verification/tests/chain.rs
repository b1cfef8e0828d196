use subvt::account::AccountId;
use subvt::argument::ArgumentDecodeError;
use subvt::chain_types::{decode_era_reward_points, EraRewardPoints};
use subvt::era::{
    decode_epoch_start, goes_on, sort_stakers, BlockHeader, Epoch, Era, EraStakers,
    NominatorStake, ValidatorStake,
};
use subvt::extrinsic::{
    read_signature, DecodeError, Era as ExtrinsicEra, MultiAddress, MultiSignature,
    SubstrateExtrinsic, Timestamp,
};
use subvt::metadata::{Metadata, ModuleConstantMetadata};
use subvt::metadata_convert::{RawCall, RawCallArgument, RawModule};
use subvt::metadata_read::{RawMetadata, META_RESERVED};
use subvt::paging::{chunks, Chunk, PageRequest, PagedKeys};
use subvt::relational::{
    count_era_nominators, era_nominators, era_validator_rows, parse_unclaimed_era_indices,
};
use subvt::validator::ValidatorPreferences;

fn account(n: u8) -> AccountId {
    AccountId::new([n; 32])
}

fn constant(name: &str, value: Vec<u8>) -> ModuleConstantMetadata {
    ModuleConstantMetadata {
        name: name.to_string(),
        ty: "u64".to_string(),
        value,
        documentation: vec![],
    }
}

fn module(index: u8, name: &str, constants: Vec<ModuleConstantMetadata>) -> RawModule {
    RawModule {
        index,
        name: name.to_string(),
        storage: None,
        calls: None,
        events: None,
        constants,
        errors: vec![],
    }
}

fn call(name: &str, types: Vec<&str>) -> RawCall {
    RawCall {
        name: name.to_string(),
        arguments: types
            .into_iter()
            .map(|ty| RawCallArgument { name: "value".to_string(), ty: ty.to_string() })
            .collect(),
        documentation: vec![],
    }
}

fn metadata() -> Metadata {
    let mut version = vec![0x04, b'k', 0x04, b'p'];
    version.extend_from_slice(&[0u8; 12]);
    version.push(0x00);
    version.extend_from_slice(&1u32.to_le_bytes());
    let mut timestamp = module(3, "Timestamp", vec![]);
    timestamp.calls = Some(vec![call("set", vec!["Compact<T::Moment>"]), call("touch", vec![])]);
    let mut balances = module(4, "Balances", vec![]);
    balances.calls = Some(vec![call("transfer", vec!["T::AccountId", "Compact<Balance>"])]);
    Metadata::from(RawMetadata {
        magic: META_RESERVED,
        version: 13,
        modules: vec![
            module(
                1,
                "Babe",
                vec![
                    constant("ExpectedBlockTime", 6000u64.to_le_bytes().to_vec()),
                    constant("EpochDuration", 10u64.to_le_bytes().to_vec()),
                ],
            ),
            module(
                2,
                "Staking",
                vec![
                    constant("SessionsPerEra", 6u32.to_le_bytes().to_vec()),
                    constant("MaxNominations", 16u32.to_le_bytes().to_vec()),
                ],
            ),
            module(0, "System", vec![constant("Version", version)]),
            timestamp,
            balances,
        ],
    })
    .unwrap()
}

fn framed_hex(inner: &[u8]) -> String {
    assert!(inner.len() < 64);
    let mut bytes = vec![(inner.len() as u8) << 2];
    bytes.extend_from_slice(inner);
    format!("0x{}", bytes.iter().map(|b| format!("{:02x}", b)).collect::<String>())
}

#[test]
fn reads_the_extrinsic_that_sets_the_time() {
    let metadata = metadata();
    let bytes = [0x04, 0x03, 0x00, 0x0B, 0x00, 0x40, 0x7A, 0x10, 0xF3, 0x5A];
    let extrinsic = SubstrateExtrinsic::decode_extrinsic(&metadata, &bytes).unwrap();
    assert_eq!(
        extrinsic,
        SubstrateExtrinsic::Timestamp(Timestamp::SetMoment {
            version: 4,
            signature: None,
            timestamp: 100_000_000_000_000,
        })
    );
    let other = SubstrateExtrinsic::decode_extrinsic(&metadata, &[0x04, 0x03, 0x01]).unwrap();
    assert_eq!(
        other,
        SubstrateExtrinsic::Other {
            module_name: "Timestamp".to_string(),
            call_name: "touch".to_string(),
            version: 4,
            signature: None,
        }
    );
}

fn signed_transfer() -> Vec<u8> {
    let mut bytes = vec![0x84, 0x00];
    bytes.extend_from_slice(&[7u8; 32]);
    bytes.push(0x01);
    bytes.extend_from_slice(&[9u8; 64]);
    bytes.extend_from_slice(&[0x15, 0x00]);
    bytes.push(0x08);
    bytes.push(0x00);
    bytes.extend_from_slice(&[0x04, 0x00]);
    bytes.extend_from_slice(&[8u8; 32]);
    bytes.push(0x04);
    bytes
}

#[test]
fn reads_a_signed_extrinsic() {
    let metadata = metadata();
    let bytes = signed_transfer();
    match SubstrateExtrinsic::decode_extrinsic(&metadata, &bytes).unwrap() {
        SubstrateExtrinsic::Other { module_name, call_name, version, signature } => {
            assert_eq!(module_name, "Balances");
            assert_eq!(call_name, "transfer");
            assert_eq!(version, 4);
            let signature = signature.unwrap();
            assert_eq!(signature.signer, MultiAddress::Id(account(7)));
            assert_eq!(signature.signature, MultiSignature::Sr25519(vec![9u8; 64]));
            assert_eq!(signature.era, Some(ExtrinsicEra::Mortal(64, 1)));
            assert_eq!(signature.nonce, Some(2));
            assert_eq!(signature.tip, Some(0));
        }
        other => panic!("unexpected: {:?}", other),
    }
    let (signature, end) = read_signature(&bytes, 1).unwrap();
    assert_eq!(end, 1 + 33 + 65 + 2 + 1 + 1);
    assert_eq!(signature.nonce, Some(2));
    assert!(read_signature(&bytes[..50], 1).is_none());
}

#[test]
fn reads_addresses_signatures_and_eras_of_every_kind() {
    let with = |address: Vec<u8>, signature: Vec<u8>, era: Vec<u8>| {
        let mut bytes = address;
        bytes.extend_from_slice(&signature);
        bytes.extend_from_slice(&era);
        bytes.extend_from_slice(&[0x00, 0x00]);
        read_signature(&bytes, 0)
    };
    let mut ed = vec![0x00];
    ed.extend_from_slice(&[1u8; 64]);
    let mut ecdsa = vec![0x02];
    ecdsa.extend_from_slice(&[1u8; 65]);
    let (read, _) = with(vec![0x01, 0x18], ed.clone(), vec![0x00]).unwrap();
    assert_eq!(read.signer, MultiAddress::Index(6));
    assert_eq!(read.signature, MultiSignature::Ed25519(vec![1u8; 64]));
    assert_eq!(read.era, Some(ExtrinsicEra::Immortal));
    let (read, _) = with(vec![0x02, 0x08, 0xAA, 0xBB], ecdsa.clone(), vec![0x00]).unwrap();
    assert_eq!(read.signer, MultiAddress::Raw(vec![0xAA, 0xBB]));
    assert_eq!(read.signature, MultiSignature::Ecdsa(vec![1u8; 65]));
    let mut address32 = vec![0x03];
    address32.extend_from_slice(&[4u8; 32]);
    let (read, _) = with(address32, ed.clone(), vec![0x00]).unwrap();
    assert_eq!(read.signer, MultiAddress::Address32(account(4)));
    let mut address20 = vec![0x04];
    address20.extend_from_slice(&[5u8; 20]);
    let (read, _) = with(address20, ed.clone(), vec![0x00]).unwrap();
    assert_eq!(read.signer, MultiAddress::Address20(vec![5u8; 20]));
    assert!(with(vec![0x05], ed.clone(), vec![0x00]).is_none());
    assert!(with(vec![0x01, 0x18], vec![0x03], vec![0x00]).is_none());
    let (read, _) = with(vec![0x01, 0x18], ed.clone(), vec![0x0C, 0x00]).unwrap();
    assert_eq!(read.era, Some(ExtrinsicEra::Mortal(8192, 0)));
    let (read, _) = with(vec![0x01, 0x18], ed.clone(), vec![0x1C, 0x00]).unwrap();
    assert_eq!(read.era, Some(ExtrinsicEra::Mortal(8192, 2)));
    assert!(with(vec![0x01, 0x18], ed.clone(), vec![0x20, 0x00]).is_none());
    assert!(with(vec![0x01, 0x18], ed, vec![0x01]).is_none());
}

#[test]
fn extrinsics_that_do_not_read_tell_why() {
    let metadata = metadata();
    assert_eq!(
        SubstrateExtrinsic::decode_extrinsic(&metadata, &[]),
        Err(DecodeError::Truncated)
    );
    assert_eq!(
        SubstrateExtrinsic::decode_extrinsic(&metadata, &[0x04, 0x03]),
        Err(DecodeError::Truncated)
    );
    assert_eq!(
        SubstrateExtrinsic::decode_extrinsic(&metadata, &[0x84, 0x09]),
        Err(DecodeError::MalformedSignature)
    );
    assert_eq!(
        SubstrateExtrinsic::decode_extrinsic(&metadata, &[0x04, 0x09, 0x00]),
        Err(DecodeError::UnknownModule(9))
    );
    assert_eq!(
        SubstrateExtrinsic::decode_extrinsic(&metadata, &[0x04, 0x03, 0x02]),
        Err(DecodeError::UnknownCall(2))
    );
    assert_eq!(
        SubstrateExtrinsic::decode_extrinsic(&metadata, &[0x04, 0x03, 0x00]),
        Err(DecodeError::Argument(ArgumentDecodeError::MalformedCompact))
    );
    assert_eq!(
        SubstrateExtrinsic::decode_extrinsic_text(&metadata, "0xzz"),
        Err(DecodeError::InvalidHex)
    );
    assert_eq!(
        SubstrateExtrinsic::decode_extrinsic_text(&metadata, "0x10040301"),
        Err(DecodeError::Truncated)
    );
    assert_eq!(
        SubstrateExtrinsic::decode_extrinsic_text(&metadata, ""),
        Err(DecodeError::Truncated)
    );
}

#[test]
fn reads_the_extrinsics_of_a_block_in_order() {
    let metadata = metadata();
    let texts = vec![
        framed_hex(&[0x04, 0x03, 0x00, 0x0B, 0x00, 0x40, 0x7A, 0x10, 0xF3, 0x5A]),
        framed_hex(&[0x04, 0x03, 0x01]),
    ];
    let extrinsics = SubstrateExtrinsic::decode_extrinsics(&metadata, &texts).unwrap();
    assert_eq!(extrinsics.len(), 2);
    assert!(matches!(extrinsics[0], SubstrateExtrinsic::Timestamp(_)));
    assert!(matches!(extrinsics[1], SubstrateExtrinsic::Other { .. }));
    let mut broken = texts.clone();
    broken.insert(1, framed_hex(&[0x04, 0x08, 0x01]));
    assert_eq!(
        SubstrateExtrinsic::decode_extrinsics(&metadata, &broken),
        Err(DecodeError::UnknownModule(8))
    );
    assert_eq!(SubstrateExtrinsic::decode_extrinsics(&metadata, &vec![]), Ok(vec![]));
}

#[test]
fn reads_era_and_epoch() {
    let mut data = 2500u32.to_le_bytes().to_vec();
    data.push(1);
    data.extend_from_slice(&1_600_000_000_000u64.to_le_bytes());
    assert_eq!(
        Era::from(&data, 21_600_000),
        Some(Era {
            index: 2500,
            start_timestamp: 1_600_000_000_000,
            end_timestamp: 1_600_021_600_000,
        })
    );
    assert_eq!(Era::from(&data[..12], 1), None);
    assert_eq!(Era::from(&data, u64::MAX), None);
    let mut not_started = data.clone();
    not_started[4] = 0;
    assert_eq!(Era::from(&not_started, 1), None);
    assert_eq!(
        Epoch::new(7, 1000, 1_600_000_000_999, 3_600_001),
        Some(Epoch {
            index: 7,
            start_block_number: 1000,
            start_timestamp: 1_600_000_000,
            end_timestamp: 1_600_003_601,
        })
    );
    assert_eq!(Epoch::new(7, 1000, u64::MAX, 1), None);
    assert_eq!(decode_epoch_start(&[1, 0, 0, 0, 0x10, 0x27, 0, 0]), Some(10_000));
    assert_eq!(decode_epoch_start(&[1, 0, 0, 0, 0x10, 0x27, 0]), None);
}

fn header(number: &str) -> BlockHeader {
    BlockHeader {
        number: number.to_string(),
        parent_hash: String::new(),
        state_root: String::new(),
        extrinsics_root: String::new(),
    }
}

#[test]
fn reads_the_number_of_a_block() {
    assert_eq!(header("0xbc614e").get_number(), Some(12_345_678));
    assert_eq!(header("BC614E").get_number(), Some(12_345_678));
    assert_eq!(header("0x0").get_number(), Some(0));
    assert_eq!(header("0xffffffffffffffff").get_number(), Some(u64::MAX));
    assert_eq!(header("0x10000000000000000").get_number(), None);
    assert_eq!(header("0x").get_number(), None);
    assert_eq!(header("").get_number(), None);
    assert_eq!(header("0x12g").get_number(), None);
    assert!(goes_on(&Some(header("0x1"))));
    assert!(!goes_on(&None));
}

fn staker(n: u8, total: u128, nominators: Vec<u8>) -> ValidatorStake {
    ValidatorStake {
        account_id: account(n),
        self_stake: 1,
        total_stake: total,
        nominators: nominators
            .into_iter()
            .map(|n| NominatorStake { account_id: account(n), stake: 1 })
            .collect(),
    }
}

#[test]
fn stakers_are_put_in_order_and_measured() {
    let era = Era { index: 1, start_timestamp: 0, end_timestamp: 1 };
    let stakers = EraStakers::new(
        era,
        vec![staker(1, 30, vec![]), staker(2, 10, vec![]), staker(3, 20, vec![]), staker(4, 10, vec![])],
    );
    let order: Vec<AccountId> = stakers.stakers.iter().map(|s| s.account_id).collect();
    assert_eq!(order, vec![account(2), account(4), account(3), account(1)]);
    assert_eq!(stakers.total_stake(), Some(70));
    assert_eq!(stakers.min_stake(), Some((account(2), 10)));
    assert_eq!(stakers.max_stake(), Some((account(1), 30)));
    assert_eq!(stakers.average_stake(), Some(17));
    assert_eq!(stakers.median_stake(), Some(20));
    let empty = EraStakers::new(era, vec![]);
    assert_eq!(empty.total_stake(), Some(0));
    assert_eq!(empty.min_stake(), None);
    assert_eq!(empty.max_stake(), None);
    assert_eq!(empty.average_stake(), None);
    assert_eq!(empty.median_stake(), None);
    let huge = EraStakers::new(era, vec![staker(1, u128::MAX, vec![]), staker(2, 1, vec![])]);
    assert_eq!(huge.total_stake(), None);
    assert_eq!(huge.average_stake(), None);
    assert_eq!(sort_stakers(vec![staker(1, 2, vec![]), staker(2, 1, vec![])])[0].account_id, account(2));
}

#[test]
fn reads_the_stake_behind_a_validator() {
    let mut data = vec![0x28, 0x0C, 0x08];
    data.extend_from_slice(&[7u8; 32]);
    data.push(0x10);
    data.extend_from_slice(&[8u8; 32]);
    data.extend_from_slice(&[0x01, 0x01]);
    let stake = ValidatorStake::from_bytes(&data, account(1)).unwrap();
    assert_eq!(stake.account_id, account(1));
    assert_eq!(stake.total_stake, 10);
    assert_eq!(stake.self_stake, 3);
    assert_eq!(
        stake.nominators,
        vec![
            NominatorStake { account_id: account(7), stake: 4 },
            NominatorStake { account_id: account(8), stake: 64 },
        ]
    );
    assert!(ValidatorStake::from_bytes(&data[..data.len() - 1], account(1)).is_none());
    assert!(ValidatorStake::from_bytes(&[0x28, 0x0C], account(1)).is_none());
    assert_eq!(
        ValidatorStake::from_bytes(&[0x28, 0x0C, 0x00], account(1)).unwrap().nominators,
        vec![]
    );
}

#[test]
fn unclaimed_eras_come_out_once_each_and_in_order() {
    assert_eq!(parse_unclaimed_era_indices(Some("3,1,2")), vec![1, 2, 3]);
    assert_eq!(parse_unclaimed_era_indices(Some("5,x,5,,4, 7,+6,4294967296")), vec![4, 5, 6]);
    assert_eq!(parse_unclaimed_era_indices(Some("")), Vec::<u32>::new());
    assert_eq!(parse_unclaimed_era_indices(Some("4294967295")), vec![u32::MAX]);
    assert_eq!(parse_unclaimed_era_indices(None), Vec::<u32>::new());
}

#[test]
fn nominators_of_an_era_count_once() {
    let era = Era { index: 1, start_timestamp: 0, end_timestamp: 1 };
    let stakers = EraStakers::new(
        era,
        vec![staker(1, 30, vec![10, 11]), staker(2, 10, vec![11, 12, 10]), staker(3, 20, vec![])],
    );
    assert_eq!(count_era_nominators(&stakers), 3);
    assert_eq!(era_nominators(&stakers), vec![account(11), account(12), account(10)]);
    assert_eq!(count_era_nominators(&EraStakers::new(era, vec![])), 0);
}

#[test]
fn rows_of_the_validators_of_an_era() {
    let all = vec![account(1), account(2), account(3)];
    let active = vec![account(3), account(1)];
    let bonded = vec![(account(1), account(11)), (account(1), account(12))];
    let stakes = vec![staker(3, 50, vec![20, 21])];
    let preferences = vec![(
        account(2),
        ValidatorPreferences { commission_per_billion: 5, blocks_nominations: true },
    )];
    let rows = era_validator_rows(&all, &active, &bonded, &stakes, &preferences);
    assert_eq!(rows.len(), 3);
    assert_eq!(rows[0].validator_account_id, account(1));
    assert_eq!(rows[0].controller_account_id, Some(account(12)));
    assert!(rows[0].is_active);
    assert_eq!(rows[0].active_validator_index, Some(1));
    assert_eq!(rows[0].total_stake, None);
    assert_eq!(rows[0].commission_per_billion, None);
    assert!(!rows[1].is_active);
    assert_eq!(rows[1].active_validator_index, None);
    assert_eq!(rows[1].commission_per_billion, Some(5));
    assert_eq!(rows[1].blocks_nominations, Some(true));
    assert_eq!(rows[1].controller_account_id, None);
    assert_eq!(rows[2].active_validator_index, Some(0));
    assert_eq!(rows[2].total_stake, Some(50));
    assert_eq!(rows[2].self_stake, Some(1));
    assert_eq!(rows[2].active_nominator_count, Some(2));
}

#[test]
fn keys_come_page_by_page_until_a_page_is_short() {
    let mut scan = PagedKeys::new(2);
    assert!(matches!(scan.next_request(), PageRequest::First));
    scan.accept(vec!["a".to_string(), "b".to_string()]);
    assert!(!scan.done());
    assert!(matches!(scan.next_request(), PageRequest::After(key) if key == "b"));
    scan.accept(vec!["c".to_string()]);
    assert!(scan.done());
    assert!(matches!(scan.next_request(), PageRequest::Finished));
    assert_eq!(scan.into_keys(), vec!["a", "b", "c"]);
    let mut empty = PagedKeys::new(1000);
    empty.accept(vec![]);
    assert!(empty.done());
    assert!(empty.into_keys().is_empty());
    let mut full = PagedKeys::new(1);
    full.accept(vec!["a".to_string()]);
    assert!(!full.done());
}

#[test]
fn values_are_asked_for_in_chunks() {
    assert_eq!(
        chunks(2500, 1000),
        vec![
            Chunk { start: 0, end: 1000 },
            Chunk { start: 1000, end: 2000 },
            Chunk { start: 2000, end: 2500 },
        ]
    );
    assert_eq!(chunks(2000, 1000).len(), 2);
    assert_eq!(chunks(1, 1000), vec![Chunk { start: 0, end: 1 }]);
    assert_eq!(chunks(0, 1000), vec![]);
    assert_eq!(chunks(3, 1).len(), 3);
}

#[test]
fn reads_the_reward_points_of_an_era() {
    let mut data = 1_000u32.to_le_bytes().to_vec();
    data.push(2 << 2);
    data.extend_from_slice(&[1; 32]);
    data.extend_from_slice(&600u32.to_le_bytes());
    data.extend_from_slice(&[2; 32]);
    data.extend_from_slice(&400u32.to_le_bytes());
    assert_eq!(
        decode_era_reward_points(&data),
        Some(EraRewardPoints {
            total: 1_000,
            individual: vec![(account(1), 600), (account(2), 400)],
        })
    );
    // what follows the last validator is not read
    data.push(0xEE);
    assert_eq!(decode_era_reward_points(&data).unwrap().individual.len(), 2);
    assert_eq!(decode_era_reward_points(&data[..data.len() - 2]), None);
    assert_eq!(decode_era_reward_points(&data[..4]), None);
    assert_eq!(decode_era_reward_points(&data[..3]), None);
    assert_eq!(
        decode_era_reward_points(&[7, 0, 0, 0, 0]),
        Some(EraRewardPoints { total: 7, individual: vec![] })
    );
    assert_eq!(decode_era_reward_points(&[7, 0, 0, 0, 0x03]), None);
}
