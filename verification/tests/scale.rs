use subvt::account::AccountId;
use subvt::argument::{get_primitive_kind, Argument, ArgumentDecodeError, ArgumentPrimitive, PrimitiveKind};
use subvt::argument_meta::ArgumentMeta;
use subvt::hex_codec::{decode_hex, encode_hex, encode_hex_upper, strip_hex_prefix};
use subvt::metadata::{HasherKind, StorageHasher, StorageMetadata};
use subvt::scale::{
    read_bytes, read_compact_u128, read_compact_u32, read_compact_u64, read_u128, read_u16,
    read_u32, read_u64, read_u8,
};
use subvt::storage::{get_storage_map_key, get_storage_plain_key, hash, storage_key_text};

fn account(n: u8) -> AccountId {
    AccountId::new([n; 32])
}

#[test]
fn reads_fixed_width_numbers() {
    let bytes = [0x01, 0x02, 0x03, 0x04, 0x05, 0x06, 0x07, 0x08, 0x09, 0x0A, 0x0B, 0x0C, 0x0D, 0x0E, 0x0F, 0x10, 0x11];
    assert_eq!(read_u8(&bytes, 0), Some((1, 1)));
    assert_eq!(read_u8(&bytes, 17), None);
    assert_eq!(read_u16(&bytes, 0), Some((0x0201, 2)));
    assert_eq!(read_u16(&bytes, 1), Some((0x0302, 3)));
    assert_eq!(read_u16(&bytes, 16), None);
    assert_eq!(read_u32(&bytes, 0), Some((0x0403_0201, 4)));
    assert_eq!(read_u32(&bytes, 14), None);
    assert_eq!(read_u64(&bytes, 1), Some((0x0908_0706_0504_0302, 9)));
    assert_eq!(read_u64(&bytes, 10), None);
    assert_eq!(
        read_u128(&bytes, 0),
        Some((0x100F_0E0D_0C0B_0A09_0807_0605_0403_0201, 16))
    );
    assert_eq!(read_u128(&bytes, 2), None);
    assert_eq!(read_u32(&bytes, 99), None);
}

#[test]
fn reads_compact_numbers_of_every_form() {
    assert_eq!(read_compact_u32(&[0x00], 0), Some((0, 1)));
    assert_eq!(read_compact_u32(&[0xFC], 0), Some((63, 1)));
    assert_eq!(read_compact_u32(&[0x01, 0x01], 0), Some((64, 2)));
    assert_eq!(read_compact_u32(&[0xFD, 0xFF], 0), Some((16383, 2)));
    assert_eq!(read_compact_u32(&[0x02, 0x00, 0x01, 0x00], 0), Some((16384, 4)));
    assert_eq!(
        read_compact_u32(&[0xFE, 0xFF, 0xFF, 0xFF], 0),
        Some(((1 << 30) - 1, 4))
    );
    assert_eq!(
        read_compact_u32(&[0x03, 0x00, 0x00, 0x00, 0x40], 0),
        Some((1 << 30, 5))
    );
    assert_eq!(
        read_compact_u32(&[0x03, 0xFF, 0xFF, 0xFF, 0xFF], 0),
        Some((u32::MAX, 5))
    );
    assert_eq!(read_compact_u32(&[0xAA, 0x04], 1), Some((1, 2)));
}

#[test]
fn refuses_compact_numbers_in_a_longer_form_than_needed() {
    assert_eq!(read_compact_u32(&[0x01, 0x00], 0), None);
    assert_eq!(read_compact_u32(&[0xFD, 0x00], 0), None);
    assert_eq!(read_compact_u32(&[0x02, 0x00, 0x00, 0x00], 0), None);
    assert_eq!(read_compact_u32(&[0x03, 0xFF, 0xFF, 0xFF, 0x3F], 0), None);
}

#[test]
fn refuses_compact_numbers_cut_short_or_too_wide() {
    assert_eq!(read_compact_u32(&[], 0), None);
    assert_eq!(read_compact_u32(&[0x01], 0), None);
    assert_eq!(read_compact_u32(&[0x02, 0x00, 0x01], 0), None);
    assert_eq!(read_compact_u32(&[0x07, 0, 0, 0, 0, 1], 0), None);
    assert_eq!(read_compact_u32(&[0x00], 1), None);
}

#[test]
fn reads_wide_compact_numbers() {
    assert_eq!(
        read_compact_u64(&[0x07, 0x00, 0x00, 0x00, 0x00, 0x01], 0),
        Some((1 << 32, 6))
    );
    assert_eq!(
        read_compact_u64(&[0x13, 0xFF, 0xFF, 0xFF, 0xFF, 0xFF, 0xFF, 0xFF, 0xFF], 0),
        Some((u64::MAX, 9))
    );
    assert_eq!(
        read_compact_u64(&[0x07, 0x00, 0x00, 0x00, 0x00, 0x00], 0),
        None
    );
    assert_eq!(
        read_compact_u64(&[0x17, 0, 0, 0, 0, 0, 0, 0, 0, 1], 0),
        None
    );
    assert_eq!(
        read_compact_u128(&[0x17, 0, 0, 0, 0, 0, 0, 0, 0, 1], 0),
        Some((1 << 64, 10))
    );
    let mut widest = vec![0x33];
    widest.extend_from_slice(&u128::MAX.to_le_bytes());
    assert_eq!(read_compact_u128(&widest, 0), Some((u128::MAX, 17)));
    assert_eq!(
        read_compact_u128(&[0x0B, 0x00, 0x40, 0x7A, 0x10, 0xF3, 0x5A], 0),
        Some((100_000_000_000_000, 7))
    );
}

#[test]
fn takes_bytes() {
    assert_eq!(read_bytes(&[1, 2, 3, 4], 1, 2), Some((vec![2, 3], 3)));
    assert_eq!(read_bytes(&[1, 2, 3, 4], 4, 0), Some((vec![], 4)));
    assert_eq!(read_bytes(&[1, 2, 3, 4], 3, 2), None);
    assert_eq!(read_bytes(&[1, 2, 3, 4], usize::MAX, 2), None);
}

#[test]
fn hexadecimal_text_goes_both_ways() {
    assert_eq!(encode_hex(&[0x00, 0x1F, 0xAB, 0xFF]), "0x001fabff");
    assert_eq!(encode_hex_upper(&[0x00, 0x1F, 0xAB, 0xFF]), "0x001FABFF");
    assert_eq!(encode_hex(&[]), "0x");
    assert_eq!(decode_hex("0x001fabff"), Some(vec![0x00, 0x1F, 0xAB, 0xFF]));
    assert_eq!(decode_hex("001FaBfF"), Some(vec![0x00, 0x1F, 0xAB, 0xFF]));
    assert_eq!(decode_hex("0x0x12"), Some(vec![0x12]));
    assert_eq!(decode_hex(""), Some(vec![]));
    assert_eq!(decode_hex("0x123"), None);
    assert_eq!(decode_hex("0xzz"), None);
    assert_eq!(strip_hex_prefix("0x0x0y"), "0y");
    for bytes in [vec![], vec![0u8], vec![1, 2, 3, 254, 255]] {
        assert_eq!(decode_hex(&encode_hex(&bytes)), Some(bytes.clone()));
        assert_eq!(decode_hex(&encode_hex_upper(&bytes)), Some(bytes));
    }
}

#[test]
fn accounts_are_written_in_upper_case() {
    let mut bytes = [0u8; 32];
    bytes[0] = 0xAB;
    bytes[31] = 0x0F;
    let id = AccountId::new(bytes);
    let text = id.to_string();
    assert_eq!(
        text,
        "0xAB0000000000000000000000000000000000000000000000000000000000000F"
    );
    assert_eq!(AccountId::from_hex(&text), Some(id));
    assert_eq!(AccountId::from_hex(&text.to_lowercase()), Some(id));
    assert_eq!(AccountId::from_hex(&text[2..]), Some(id));
    assert_eq!(AccountId::from_hex("0x1234"), None);
    assert_eq!(AccountId::from_hex("not an account"), None);
}

#[test]
fn account_is_the_end_of_a_storage_key() {
    let mut key = vec![9u8; 40];
    key.extend_from_slice(&[7u8; 32]);
    assert_eq!(AccountId::from_storage_key(&key), Some(account(7)));
    assert_eq!(AccountId::from_storage_key(&[7u8; 31]), None);
    assert_eq!(AccountId::from_bytes(&[7u8; 32]), Some(account(7)));
    assert_eq!(AccountId::from_bytes(&[7u8; 33]), None);
    let text = format!("0x{}{}", "99".repeat(40), "07".repeat(32));
    assert_eq!(AccountId::from_storage_key_string(&text), Some(account(7)));
    assert_eq!(AccountId::from_storage_key_string("0x07"), None);
    assert_eq!(
        AccountId::from_storage_key_string(&format!("{}zz", "07".repeat(31))),
        None
    );
    assert!(account(7).same(&account(7)));
    assert!(!account(7).same(&account(8)));
}

#[test]
fn sort_key_does_not_vary() {
    assert_eq!(account(1).sort_key(), account(1).sort_key());
    assert_ne!(account(1).sort_key(), account(2).sort_key());
}

#[test]
fn hashes_storage_names_as_the_chain_does() {
    assert_eq!(
        storage_key_text(&get_storage_plain_key("System", "Account")),
        "0x26aa394eea5630e07c48ae0c9558cef7b99d880ec681799c0cf30e8886371da9"
    );
    assert_eq!(
        storage_key_text(&get_storage_plain_key("Timestamp", "Now")),
        "0xf0c365c3cf59d671eb72da0e7a4113c49f1f0515f462cdcf84e0f1d6045dfcbb"
    );
}

#[test]
fn hashers_give_digests_of_their_lengths() {
    let data = b"subvt";
    assert_eq!(hash(HasherKind::Identity, data), data.to_vec());
    assert_eq!(hash(HasherKind::Blake2_128, data).len(), 16);
    assert_eq!(hash(HasherKind::Blake2_256, data).len(), 32);
    assert_eq!(hash(HasherKind::Twox128, data).len(), 16);
    assert_eq!(hash(HasherKind::Twox256, data).len(), 32);
    let concat = hash(HasherKind::Blake2_128Concat, data);
    assert_eq!(concat.len(), 16 + data.len());
    assert_eq!(&concat[..16], &hash(HasherKind::Blake2_128, data)[..]);
    assert_eq!(&concat[16..], data);
    let twox = hash(HasherKind::Twox64Concat, data);
    assert_eq!(twox.len(), 8 + data.len());
    assert_eq!(&twox[8..], data);
    assert_ne!(hash(HasherKind::Blake2_128, data), data[..].to_vec());
    assert_ne!(hash(HasherKind::Twox128, data), hash(HasherKind::Blake2_128, data));
    assert_eq!(
        encode_hex(&hash(HasherKind::Twox64Concat, &[])),
        "0x99e9d85137db46ef"
    );
    assert_eq!(
        encode_hex(&hash(HasherKind::Blake2_256, &[])),
        "0x0e5751c026e543b2e8ab2eb06099daa1d1e5df47778f7787faab45cdf12fe3a8"
    );
    assert_eq!(
        encode_hex(&hash(HasherKind::Twox256, &[]))[..18].to_string(),
        "0x99e9d85137db46ef"
    );
}

#[test]
fn map_key_is_item_key_then_hashed_key() {
    let id = account(3);
    let hasher = StorageHasher::V13(HasherKind::Twox64Concat);
    let key = get_storage_map_key("Staking", "Bonded", &hasher, id.as_slice());
    let plain = get_storage_plain_key("Staking", "Bonded");
    assert_eq!(key.len(), 32 + 8 + 32);
    assert_eq!(&key[..32], &plain[..]);
    assert_eq!(&key[32..], &StorageMetadata::hash_key(&hasher, &id)[..]);
    assert_eq!(
        StorageMetadata::hash(&StorageHasher::V12(HasherKind::Identity), &[1, 2]),
        vec![1, 2]
    );
    assert_eq!(AccountId::from_storage_key(&key), Some(id));
}

#[test]
fn table_of_primitives() {
    assert_eq!(get_primitive_kind("u8"), Some(PrimitiveKind::U8));
    assert_eq!(get_primitive_kind("T::AccountId"), Some(PrimitiveKind::AccountId));
    assert_eq!(get_primitive_kind("Compact<BalanceOf<T>>"), Some(PrimitiveKind::CompactU128));
    assert_eq!(get_primitive_kind("EraIndex"), Some(PrimitiveKind::U32));
    assert_eq!(get_primitive_kind("Mystery"), None);
    assert_eq!(get_primitive_kind(""), None);
}

#[test]
fn decodes_arguments_by_shape() {
    let meta = ArgumentMeta::parse("Vec<u16>").unwrap();
    let (value, end) = Argument::decode(&meta, &[0x08, 0x01, 0x00, 0x02, 0x01, 0xFF], 0).unwrap();
    assert_eq!(end, 5);
    assert_eq!(
        value,
        Argument::Vec(vec![
            Argument::Primitive(Box::new(ArgumentPrimitive::U16(1))),
            Argument::Primitive(Box::new(ArgumentPrimitive::U16(258))),
        ])
    );
    let meta = ArgumentMeta::parse("Option<bool>").unwrap();
    assert_eq!(
        Argument::decode(&meta, &[0x00], 0).unwrap(),
        (Argument::Option(None), 1)
    );
    assert_eq!(
        Argument::decode(&meta, &[0x01, 0x01], 0).unwrap(),
        (
            Argument::Option(Some(Box::new(Argument::Primitive(Box::new(
                ArgumentPrimitive::Bool(true)
            ))))),
            2
        )
    );
    assert_eq!(
        Argument::decode(&meta, &[0x02, 0x01], 0),
        Err(ArgumentDecodeError::MalformedOption)
    );
    assert_eq!(
        Argument::decode(&meta, &[0x01, 0x02], 0),
        Err(ArgumentDecodeError::MalformedBool)
    );
    assert_eq!(Argument::decode(&meta, &[], 0), Err(ArgumentDecodeError::Truncated));
    assert_eq!(Argument::decode(&meta, &[0], 5), Err(ArgumentDecodeError::Truncated));
    let meta = ArgumentMeta::parse("(AccountId, Compact<Balance>, i8)").unwrap();
    let mut bytes = vec![5u8; 32];
    bytes.extend_from_slice(&[0x04, 0xFF]);
    assert_eq!(
        Argument::decode(&meta, &bytes, 0).unwrap(),
        (
            Argument::Tuple(vec![
                Argument::Primitive(Box::new(ArgumentPrimitive::AccountId(account(5)))),
                Argument::Primitive(Box::new(ArgumentPrimitive::CompactU128(1))),
                Argument::Primitive(Box::new(ArgumentPrimitive::I8(-1))),
            ]),
            34
        )
    );
}

#[test]
fn decodes_signed_numbers() {
    let decode = |name: &str, bytes: &[u8]| {
        Argument::decode(&ArgumentMeta::Primitive(name.to_string()), bytes, 0).unwrap().0
    };
    assert_eq!(
        decode("i8", &[0x80]),
        Argument::Primitive(Box::new(ArgumentPrimitive::I8(i8::MIN)))
    );
    assert_eq!(
        decode("i16", &(-2i16).to_le_bytes()),
        Argument::Primitive(Box::new(ArgumentPrimitive::I16(-2)))
    );
    assert_eq!(
        decode("i32", &i32::MIN.to_le_bytes()),
        Argument::Primitive(Box::new(ArgumentPrimitive::I32(i32::MIN)))
    );
    assert_eq!(
        decode("i64", &(-1234567890123i64).to_le_bytes()),
        Argument::Primitive(Box::new(ArgumentPrimitive::I64(-1234567890123)))
    );
    assert_eq!(
        decode("i128", &i128::MIN.to_le_bytes()),
        Argument::Primitive(Box::new(ArgumentPrimitive::I128(i128::MIN)))
    );
    assert_eq!(
        decode("i128", &(-1i128).to_le_bytes()),
        Argument::Primitive(Box::new(ArgumentPrimitive::I128(-1)))
    );
    assert_eq!(
        decode("i64", &i64::MAX.to_le_bytes()),
        Argument::Primitive(Box::new(ArgumentPrimitive::I64(i64::MAX)))
    );
    assert_eq!(
        decode("Moment", &1_600_000_000_000u64.to_le_bytes()),
        Argument::Primitive(Box::new(ArgumentPrimitive::Moment(1_600_000_000_000)))
    );
}

#[test]
fn unknown_primitive_is_never_read_in_silence() {
    let meta = ArgumentMeta::parse("Vec<Mystery>").unwrap();
    assert_eq!(
        Argument::decode(&meta, &[0x04, 0x00], 0),
        Err(ArgumentDecodeError::UnknownPrimitiveType("Mystery".to_string()))
    );
    assert_eq!(
        Argument::decode(&ArgumentMeta::Primitive("Mystery".to_string()), &[], 0),
        Err(ArgumentDecodeError::UnknownPrimitiveType("Mystery".to_string()))
    );
}

#[test]
fn known_primitives_fail_on_no_bytes_for_another_reason() {
    for name in [
        "i8", "u8", "i16", "u16", "i32", "u32", "i64", "u64", "i128", "u128", "bool",
        "Compact<u32>", "Compact<u64>", "Compact<u128>", "AccountId", "Hash", "Balance",
        "Moment", "EraIndex", "T::AccountId", "BalanceOf<T>",
    ] {
        let result = Argument::decode(&ArgumentMeta::Primitive(name.to_string()), &[], 0);
        assert!(matches!(
            result,
            Err(ArgumentDecodeError::Truncated) | Err(ArgumentDecodeError::MalformedCompact)
        ));
    }
}
