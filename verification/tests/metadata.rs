use subvt::argument::ArgumentDecodeError;
use subvt::argument_meta::{ArgumentMeta, ConversionError};
use subvt::metadata::{
    Metadata, MetadataError, MetadataVersion, ModuleConstantMetadata, StorageEntryModifier,
    StorageEntryShape, StorageEntryType,
};
use subvt::metadata_convert::{
    convert_modules, RawCall, RawCallArgument, RawEvent, RawModule, RawStorage, RawStorageEntry,
};
use subvt::metadata_read::{decode_runtime_version, signature, RawMetadata, META_RESERVED};

fn primitive(name: &str) -> ArgumentMeta {
    ArgumentMeta::Primitive(name.to_string())
}

fn constant(name: &str, value: Vec<u8>) -> ModuleConstantMetadata {
    ModuleConstantMetadata {
        name: name.to_string(),
        ty: "u64".to_string(),
        value,
        documentation: vec![],
    }
}

fn runtime_version_bytes() -> Vec<u8> {
    let mut bytes = vec![0x18];
    bytes.extend_from_slice(b"kusama");
    bytes.push(0x34);
    bytes.extend_from_slice(b"parity-kusama");
    bytes.extend_from_slice(&2u32.to_le_bytes());
    bytes.extend_from_slice(&9090u32.to_le_bytes());
    bytes.extend_from_slice(&0u32.to_le_bytes());
    bytes.push(0x04);
    bytes.extend_from_slice(&[1, 2, 3, 4, 5, 6, 7, 8]);
    bytes.extend_from_slice(&3u32.to_le_bytes());
    bytes.extend_from_slice(&5u32.to_le_bytes());
    bytes
}

fn module(index: u8, name: &str, constants: Vec<ModuleConstantMetadata>) -> RawModule {
    RawModule {
        index,
        name: name.to_string(),
        storage: None,
        calls: None,
        events: None,
        constants,
        errors: vec![],
    }
}

fn raw_modules(event_argument: &str) -> Vec<RawModule> {
    let mut staking = module(
        6,
        "Staking",
        vec![
            constant("SessionsPerEra", 6u32.to_le_bytes().to_vec()),
            constant("MaxNominations", 16u32.to_le_bytes().to_vec()),
        ],
    );
    staking.events = Some(vec![RawEvent {
        name: "Reward".to_string(),
        arguments: vec!["AccountId".to_string(), event_argument.to_string()],
        documentation: vec!["A reward".to_string()],
    }]);
    staking.calls = Some(vec![RawCall {
        name: "bond".to_string(),
        arguments: vec![RawCallArgument {
            name: "value".to_string(),
            ty: "Compact<BalanceOf<T>>".to_string(),
        }],
        documentation: vec![],
    }]);
    staking.storage = Some(RawStorage {
        prefix: "Staking".to_string(),
        entries: vec![RawStorageEntry {
            name: "ActiveEra".to_string(),
            modifier: StorageEntryModifier::Optional,
            ty: StorageEntryType::V13(StorageEntryShape::Plain("ActiveEraInfo".to_string())),
            default: vec![0],
        }],
    });
    vec![
        module(
            1,
            "Babe",
            vec![
                constant("ExpectedBlockTime", 6000u64.to_le_bytes().to_vec()),
                constant("EpochDuration", 600u64.to_le_bytes().to_vec()),
            ],
        ),
        staking,
        module(0, "System", vec![constant("Version", runtime_version_bytes())]),
    ]
}

#[test]
fn it_works() {
    assert_eq!(2 + 2, 4);
}

#[test]
fn parses_vec_of_primitive() {
    let meta = ArgumentMeta::parse("Vec<u32>").unwrap();
    assert_eq!(meta, ArgumentMeta::Vec(Box::new(primitive("u32"))));
    assert_eq!(meta.to_string(), "Vec<u32>");
}

#[test]
fn parses_tuple_and_trims_members() {
    let meta = ArgumentMeta::parse("(AccountId,  Option<Balance> )").unwrap();
    assert_eq!(
        meta,
        ArgumentMeta::Tuple(vec![
            primitive("AccountId"),
            ArgumentMeta::Option(Box::new(primitive("Balance"))),
        ])
    );
    assert_eq!(meta.to_string(), "(AccountId, Option<Balance>)");
    assert_eq!(ArgumentMeta::parse(&meta.to_string()).unwrap(), meta);
}

#[test]
fn parse_of_text_of_parse_is_parse() {
    for text in [
        "u32",
        "",
        "Vec<u8>",
        "Vec<>",
        "Option<Vec<(AccountId, Balance)>>",
        "(u8)",
        "()",
        "( a ,b,  c )",
        "Compact<Balance>",
        "Vec< u8 >",
        "(Vec< x >,y)",
    ] {
        let meta = ArgumentMeta::parse(text).unwrap();
        assert_eq!(ArgumentMeta::parse(&meta.to_string()).unwrap(), meta);
    }
}

#[test]
fn empty_parentheses_hold_one_unnamed_member() {
    assert_eq!(
        ArgumentMeta::parse("()").unwrap(),
        ArgumentMeta::Tuple(vec![primitive("")])
    );
}

#[test]
fn rejects_unclosed_vec() {
    match ArgumentMeta::parse("Vec<u32") {
        Err(ConversionError::InvalidEventArg(text, why)) => {
            assert_eq!(text, "Vec<u32");
            assert_eq!(why, "Expected closing `>` for `Vec`");
        }
        other => panic!("unexpected: {:?}", other),
    }
}

#[test]
fn rejects_unclosed_option_and_tuple() {
    match ArgumentMeta::parse("Option<u32") {
        Err(ConversionError::InvalidEventArg(text, why)) => {
            assert_eq!(text, "Option<u32");
            assert_eq!(why, "Expected closing `>` for `Option`");
        }
        other => panic!("unexpected: {:?}", other),
    }
    match ArgumentMeta::parse("(u8, u16") {
        Err(ConversionError::InvalidEventArg(text, why)) => {
            assert_eq!(text, "(u8, u16");
            assert_eq!(why, "Expecting closing `)` for tuple");
        }
        other => panic!("unexpected: {:?}", other),
    }
}

#[test]
fn rejection_inside_a_tuple_names_the_member() {
    match ArgumentMeta::parse("(u8, Vec<u16)") {
        Err(ConversionError::InvalidEventArg(text, _)) => assert_eq!(text, "Vec<u16"),
        other => panic!("unexpected: {:?}", other),
    }
}

#[test]
fn clone_of_shape_is_equal() {
    let meta = ArgumentMeta::parse("(Vec<u8>, Option<(a)>)").unwrap();
    assert_eq!(meta.clone(), meta);
}

#[test]
fn converts_modules() {
    let modules = convert_modules(raw_modules("Balance")).unwrap();
    assert_eq!(modules.len(), 3);
    let staking = &modules[1];
    assert_eq!(staking.index, 6);
    assert_eq!(staking.name, "Staking");
    assert_eq!(staking.events.len(), 1);
    assert_eq!(staking.events[0].index, 0);
    assert_eq!(
        staking.events[0].arguments,
        vec![primitive("AccountId"), primitive("Balance")]
    );
    assert_eq!(staking.events[0].documentation, vec!["A reward".to_string()]);
    assert_eq!(
        staking.calls[0].arguments,
        vec![primitive("Compact<BalanceOf<T>>")]
    );
    assert_eq!(staking.storage.len(), 1);
    assert_eq!(staking.storage[0].module_prefix, "Staking");
    assert_eq!(staking.storage[0].storage_prefix, "ActiveEra");
    assert_eq!(staking.storage[0].default, vec![0]);
    assert_eq!(staking.constants.len(), 2);
}

#[test]
fn conversion_stops_at_first_rejected_type() {
    match convert_modules(raw_modules("Vec<Balance")) {
        Err(MetadataError::Conversion(ConversionError::InvalidEventArg(text, _))) => {
            assert_eq!(text, "Vec<Balance")
        }
        other => panic!("unexpected: {:?}", other.map(|m| m.len())),
    }
}

#[test]
fn reads_metadata_and_derives_constants() {
    let metadata = Metadata::from(RawMetadata {
        magic: META_RESERVED,
        version: 13,
        modules: raw_modules("Balance"),
    })
    .unwrap();
    assert_eq!(metadata.version, MetadataVersion::V13);
    let config = &metadata.runtime_config;
    assert_eq!(config.expected_block_time_millis, 6000);
    assert_eq!(config.epoch_duration_blocks, 600);
    assert_eq!(config.epoch_duration_millis, 3_600_000);
    assert_eq!(config.sessions_per_era, 6);
    assert_eq!(config.max_nominations, 16);
    assert_eq!(config.era_duration_blocks, 3600);
    assert_eq!(config.era_duration_millis, 21_600_000);
    assert_eq!(config.spec_name, "kusama");
    assert_eq!(config.spec_version, 9090);
    assert_eq!(config.tx_version, 5);
    assert_eq!(metadata.module("Staking").unwrap().index, 6);
    assert_eq!(metadata.module_by_index(1).unwrap().name, "Babe");
    assert!(metadata.module_by_index(9).is_none());
    assert!(matches!(
        metadata.module("Nothing"),
        Err(MetadataError::ModuleNotFound(name)) if name == "Nothing"
    ));
    let staking = metadata.module("Staking").unwrap();
    assert_eq!(staking.constant("MaxNominations").unwrap().value_u32().unwrap(), 16);
    assert!(matches!(
        staking.constant("Missing"),
        Err(MetadataError::ConstantNotFound(name)) if name == "Missing"
    ));
    assert!(matches!(
        staking.constant("MaxNominations").unwrap().value_u64(),
        Err(MetadataError::ConstantValueError)
    ));
    assert_eq!(staking.call(0).unwrap().name, "bond");
    assert!(staking.call(1).is_none());
    assert_eq!(staking.event(0).unwrap().name, "Reward");
}

#[test]
fn metadata_of_version_12_reads_too() {
    let metadata = Metadata::from(RawMetadata {
        magic: META_RESERVED,
        version: 12,
        modules: raw_modules("Balance"),
    })
    .unwrap();
    assert_eq!(metadata.version, MetadataVersion::V12);
}

#[test]
fn unsupported_version_is_refused_before_the_prefix() {
    let result = Metadata::from(RawMetadata { magic: 0, version: 14, modules: vec![] });
    assert!(matches!(
        result,
        Err(MetadataError::Conversion(ConversionError::InvalidVersion))
    ));
}

#[test]
fn wrong_prefix_is_refused() {
    let result = Metadata::from(RawMetadata {
        magic: META_RESERVED + 1,
        version: 13,
        modules: raw_modules("Balance"),
    });
    assert!(matches!(
        result,
        Err(MetadataError::Conversion(ConversionError::InvalidPrefix))
    ));
}

#[test]
fn missing_module_is_told() {
    let mut modules = raw_modules("Balance");
    modules.remove(0);
    let result = Metadata::from(RawMetadata { magic: META_RESERVED, version: 13, modules });
    assert!(matches!(result, Err(MetadataError::ModuleNotFound(name)) if name == "Babe"));
}

#[test]
fn product_that_does_not_fit_counts_as_no_value() {
    let mut modules = raw_modules("Balance");
    modules[0].constants[0].value = u64::MAX.to_le_bytes().to_vec();
    let result = Metadata::from(RawMetadata { magic: META_RESERVED, version: 13, modules });
    assert!(matches!(result, Err(MetadataError::ConstantValueError)));
}

#[test]
fn unknown_event_primitive_is_fatal() {
    let result = Metadata::from(RawMetadata {
        magic: META_RESERVED,
        version: 13,
        modules: raw_modules("Vec<Mystery>"),
    });
    match result {
        Err(MetadataError::Argument(ArgumentDecodeError::UnknownPrimitiveType(name))) => {
            assert_eq!(name, "Mystery")
        }
        other => panic!("unexpected: {:?}", other.map(|m| m.modules.len())),
    }
}

#[test]
fn reads_runtime_version() {
    let version = decode_runtime_version(&runtime_version_bytes()).unwrap();
    assert_eq!(version.spec_name, "kusama");
    assert_eq!(version.spec_version, 9090);
    assert_eq!(version.transaction_version, 5);
    let mut short = runtime_version_bytes();
    short.pop();
    assert!(decode_runtime_version(&short).is_none());
    let mut not_text = runtime_version_bytes();
    not_text[1] = 0xFF;
    assert!(decode_runtime_version(&not_text).is_none());
}

#[test]
fn writes_signature_for_the_log() {
    let arguments = vec![primitive("AccountId"), ArgumentMeta::Vec(Box::new(primitive("u8")))];
    assert_eq!(
        signature("Staking", "Reward", &arguments),
        "Staking.Reward(AccountId, Vec<u8>, )"
    );
    assert_eq!(signature("System", "remark", &vec![]), "System.remark()");
}

#[test]
fn commas_part_members_even_inside_a_member() {
    match ArgumentMeta::parse("(u8, Option<(a, b)>)") {
        Err(ConversionError::InvalidEventArg(text, why)) => {
            assert_eq!(text, "Option<(a");
            assert_eq!(why, "Expected closing `>` for `Option`");
        }
        other => panic!("unexpected: {:?}", other),
    }
}
