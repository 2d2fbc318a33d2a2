use cast::accounts::account_class;
use cast::block::{parse_block_ref, parse_decimal, BlockRef};
use cast::felt::Felt;
use cast::network::{network_name, NetworkError};

fn blk_felt(tail: &[u8]) -> Felt {
    let mut bytes = [0u8; 32];
    bytes[32 - tail.len()..].copy_from_slice(tail);
    Felt { bytes }
}

#[test]
fn block_tags_are_read() {
    assert_eq!(parse_block_ref("pending"), Some(BlockRef::Pending));
    assert_eq!(parse_block_ref("latest"), Some(BlockRef::Latest));
}

#[test]
fn block_hash_is_any_text_with_hex_prefix() {
    assert_eq!(parse_block_ref("0x1f"), Some(BlockRef::Hash("0x1f".to_string())));
    assert_eq!(parse_block_ref("0x"), Some(BlockRef::Hash("0x".to_string())));
    assert_eq!(parse_block_ref("0xzz"), Some(BlockRef::Hash("0xzz".to_string())));
}

#[test]
fn block_number_is_read_from_decimal_digits() {
    assert_eq!(parse_block_ref("0"), Some(BlockRef::Number(0)));
    assert_eq!(parse_block_ref("007"), Some(BlockRef::Number(7)));
    assert_eq!(parse_block_ref("123456"), Some(BlockRef::Number(123456)));
    assert_eq!(
        parse_block_ref("18446744073709551615"),
        Some(BlockRef::Number(u64::MAX))
    );
}

#[test]
fn other_texts_name_no_block() {
    assert_eq!(parse_block_ref(""), None);
    assert_eq!(parse_block_ref("Latest"), None);
    assert_eq!(parse_block_ref("pending "), None);
    assert_eq!(parse_block_ref("12a"), None);
    assert_eq!(parse_block_ref("-1"), None);
    assert_eq!(parse_block_ref("+1"), None);
    assert_eq!(parse_block_ref("1x0"), None);
    assert_eq!(parse_block_ref("x0"), None);
    assert_eq!(parse_block_ref("١٢"), None);
    assert_eq!(parse_block_ref("18446744073709551616"), None);
    assert_eq!(parse_block_ref("99999999999999999999999"), None);
}

#[test]
fn decimal_reading_is_exact() {
    assert_eq!(parse_decimal("42"), Some(42));
    assert_eq!(parse_decimal("0000"), Some(0));
    assert_eq!(parse_decimal(""), None);
    assert_eq!(parse_decimal("4 2"), None);
    assert_eq!(parse_decimal("18446744073709551615"), Some(u64::MAX));
    assert_eq!(parse_decimal("18446744073709551616"), None);
    assert_eq!(parse_decimal("184467440737095516150"), None);
}

#[test]
fn account_class_is_the_named_one_or_the_default() {
    let named = blk_felt(&[9, 9]);
    assert_eq!(account_class(Some(named)), named);
    let default = account_class(None);
    assert_eq!(
        default.bytes,
        [
            0x04, 0xd0, 0x7e, 0x40, 0xe9, 0x33, 0x98, 0xed, 0x3c, 0x76, 0x98, 0x1e, 0x72, 0xdd,
            0x1f, 0xd2, 0x25, 0x57, 0xa7, 0x8c, 0xe3, 0x6c, 0x05, 0x15, 0xf6, 0x79, 0xe2, 0x7f,
            0x0b, 0xb5, 0xbc, 0x5f
        ]
    );
}

#[test]
fn chain_id_spells_its_bytes_after_the_leading_zeros() {
    assert_eq!(network_name(&blk_felt(b"SN_MAIN")), Ok("SN_MAIN".to_string()));
    assert_eq!(network_name(&blk_felt(&[0x41])), Ok("A".to_string()));
    assert_eq!(network_name(&blk_felt(&[0xe9, 0x41])), Ok("\u{e9}A".to_string()));
    assert_eq!(network_name(&blk_felt(&[0x7f, 0x01])), Ok("\u{7f}\u{1}".to_string()));
    assert_eq!(
        network_name(&blk_felt(b"1234567890123456789012345678901")),
        Ok("1234567890123456789012345678901".to_string())
    );
}

#[test]
fn zero_byte_inside_the_text_is_unreadable() {
    assert_eq!(network_name(&blk_felt(&[0x41, 0x00])), Err(NetworkError::UnreadableChainId));
    assert_eq!(
        network_name(&blk_felt(&[0x41, 0x00, 0x42])),
        Err(NetworkError::UnreadableChainId)
    );
    assert_eq!(network_name(&blk_felt(&[0x00, 0x00, 0x42])), Ok("B".to_string()));
}
