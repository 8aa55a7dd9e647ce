use solana_address::Address;
use token_2022_ext::state::metadata::Metadata;
use token_2022_ext::TokenError;

fn serialize_additional_metadata(pairs: &[(&str, &str)]) -> Vec<u8> {
    let mut buf = Vec::new();
    for (key, value) in pairs {
        buf.extend_from_slice(&(key.len() as u32).to_le_bytes());
        buf.extend_from_slice(key.as_bytes());
        buf.extend_from_slice(&(value.len() as u32).to_le_bytes());
        buf.extend_from_slice(value.as_bytes());
    }
    buf
}

fn create_test_metadata_bytes(
    update_authority: &[u8; 32],
    mint: &[u8; 32],
    name: &str,
    symbol: &str,
    uri: &str,
    additional_metadata: &[(&str, &str)],
) -> Vec<u8> {
    let mut bytes = Vec::new();

    bytes.extend_from_slice(update_authority);
    bytes.extend_from_slice(mint);

    bytes.extend_from_slice(&(name.len() as u32).to_le_bytes());
    bytes.extend_from_slice(name.as_bytes());

    bytes.extend_from_slice(&(symbol.len() as u32).to_le_bytes());
    bytes.extend_from_slice(symbol.as_bytes());

    bytes.extend_from_slice(&(uri.len() as u32).to_le_bytes());
    bytes.extend_from_slice(uri.as_bytes());

    let additional = serialize_additional_metadata(additional_metadata);
    // Write pair count (u32 LE), then the serialized pairs.
    bytes.extend_from_slice(&(additional_metadata.len() as u32).to_le_bytes());
    bytes.extend_from_slice(&additional);

    bytes
}

#[test]
fn test_from_bytes_valid() {
    let update_authority = [5u8; 32];
    let mint = [6u8; 32];
    let name = "My Token";
    let symbol = "MTK";
    let uri = "https://metadata.example.com/token.json";
    let pairs = &[("key1", "value1"), ("key2", "value2")];

    let bytes = create_test_metadata_bytes(&update_authority, &mint, name, symbol, uri, pairs);

    let metadata = Metadata::from_bytes(&bytes).unwrap();

    assert_eq!(
        Address::from(*metadata.update_authority()),
        Address::from(update_authority)
    );
    assert_eq!(Address::from(*metadata.mint()), Address::from(mint));
    assert_eq!(metadata.name_as_str_unchecked(), name);
    assert_eq!(metadata.symbol_as_str_unchecked(), symbol);
    assert_eq!(metadata.uri_as_str_unchecked(), uri);

    let kv = metadata.additional_metadata_iter().collect_pairs();
    assert_eq!(kv.len(), 2);
    assert_eq!(kv[0], (b"key1" as &[u8], b"value1" as &[u8]));
    assert_eq!(kv[1], (b"key2" as &[u8], b"value2" as &[u8]));
}

#[test]
fn test_from_bytes_too_short() {
    let bytes = [0u8; 79];
    assert!(Metadata::from_bytes(&bytes).is_err());
}

#[test]
fn test_from_bytes_truncated_name() {
    let mut bytes = Vec::new();
    bytes.extend_from_slice(&[0u8; 64]);
    // name_len = 100, but only 16 bytes remain (4x4 length prefixes)
    bytes.extend_from_slice(&100u32.to_le_bytes());
    bytes.extend_from_slice(&[0u8; 12]);

    assert!(Metadata::from_bytes(&bytes).is_err());
}

#[test]
fn test_from_bytes_empty_fields() {
    let update_authority = [1u8; 32];
    let mint = [2u8; 32];

    let bytes = create_test_metadata_bytes(&update_authority, &mint, "", "", "", &[]);

    assert_eq!(bytes.len(), Metadata::MIN_LEN);

    let metadata = Metadata::from_bytes(&bytes).unwrap();

    assert_eq!(
        Address::from(*metadata.update_authority()),
        Address::from(update_authority)
    );
    assert_eq!(Address::from(*metadata.mint()), Address::from(mint));
    assert_eq!(metadata.name_as_str_unchecked(), "");
    assert_eq!(metadata.symbol_as_str_unchecked(), "");
    assert_eq!(metadata.uri_as_str_unchecked(), "");
    assert_eq!(metadata.additional_metadata(), &[] as &[u8]);
    assert_eq!(metadata.additional_metadata_iter().count(), 0);
}

#[test]
fn test_from_bytes_overflow_len() {
    let mut bytes = Vec::new();
    bytes.extend_from_slice(&[0u8; 64]);
    // name_len = u32::MAX: the declared length runs past the data
    bytes.extend_from_slice(&u32::MAX.to_le_bytes());
    bytes.extend_from_slice(&[0u8; 12]);

    assert!(Metadata::from_bytes(&bytes).is_err());
}

#[test]
fn test_from_bytes_unchecked_matches_from_bytes() {
    let update_authority = [7u8; 32];
    let mint = [8u8; 32];
    let name = "Unchecked Token";
    let symbol = "UCK";
    let uri = "https://example.com/uck.json";
    let pairs = &[("extra", "data")];

    let bytes = create_test_metadata_bytes(&update_authority, &mint, name, symbol, uri, pairs);

    let checked = Metadata::from_bytes(&bytes).unwrap();
    let unchecked = Metadata::from_bytes_unchecked(&bytes);

    assert_eq!(checked.update_authority(), unchecked.update_authority());
    assert_eq!(checked.mint(), unchecked.mint());
    assert_eq!(checked.name(), unchecked.name());
    assert_eq!(checked.symbol(), unchecked.symbol());
    assert_eq!(checked.uri(), unchecked.uri());
    assert_eq!(
        checked.additional_metadata(),
        unchecked.additional_metadata()
    );
}

#[test]
fn test_from_bytes_trailing_data() {
    let update_authority = [3u8; 32];
    let mint = [4u8; 32];

    let mut bytes =
        create_test_metadata_bytes(&update_authority, &mint, "TK", "T", "https://t", &[]);

    // Append trailing bytes (e.g. token-2022 extensions after metadata)
    bytes.extend_from_slice(&[0xFFu8; 64]);

    let metadata = Metadata::from_bytes(&bytes).unwrap();

    assert_eq!(
        Address::from(*metadata.update_authority()),
        Address::from(update_authority)
    );
    assert_eq!(metadata.name_as_str_unchecked(), "TK");
    assert_eq!(metadata.symbol_as_str_unchecked(), "T");
    assert_eq!(metadata.uri_as_str_unchecked(), "https://t");
    // trailing data is captured as additional_metadata (but yields no valid pairs)
    assert_eq!(metadata.additional_metadata_iter().count(), 0);
}

#[test]
fn test_additional_metadata_iterator() {
    let pairs = &[
        ("trait_type", "Background"),
        ("value", "Blue"),
        ("display_type", "string"),
    ];
    let bytes = create_test_metadata_bytes(&[0u8; 32], &[0u8; 32], "", "", "", pairs);
    let metadata = Metadata::from_bytes(&bytes).unwrap();

    let kv = metadata.additional_metadata_iter().collect_pairs();
    assert_eq!(kv.len(), 3);
    assert_eq!(kv[0], (b"trait_type" as &[u8], b"Background" as &[u8]));
    assert_eq!(kv[1], (b"value" as &[u8], b"Blue" as &[u8]));
    assert_eq!(kv[2], (b"display_type" as &[u8], b"string" as &[u8]));
}

#[test]
fn test_additional_metadata_iterator_truncated() {
    // Build metadata bytes manually: after name/symbol/uri,
    // write a pair_count then one valid pair + one truncated pair.
    let mut bytes = Vec::new();
    bytes.extend_from_slice(&[0u8; 64]); // authority + mint
    for _ in 0..3 {
        bytes.extend_from_slice(&0u32.to_le_bytes()); // name, symbol, uri (empty)
    }
    // pair_count = 2 (but only the first pair is complete)
    bytes.extend_from_slice(&2u32.to_le_bytes());
    // First pair (complete): key="key", value="val"
    bytes.extend_from_slice(&3u32.to_le_bytes());
    bytes.extend_from_slice(b"key");
    bytes.extend_from_slice(&3u32.to_le_bytes());
    bytes.extend_from_slice(b"val");
    // Truncated second pair (key_len present but no data)
    bytes.extend_from_slice(&10u32.to_le_bytes());

    let metadata = Metadata::from_bytes(&bytes).unwrap();
    let kv = metadata.additional_metadata_iter().collect_pairs();
    // Only the first complete pair is yielded; iterator stops at truncation
    assert_eq!(kv.len(), 1);
    assert_eq!(kv[0], (b"key" as &[u8], b"val" as &[u8]));
}

// ---------------------------------------------------------------------------

#[test]
fn from_bytes_error_is_invalid_account_data() {
    assert_eq!(
        Metadata::from_bytes(&[0u8; 79]).err(),
        Some(TokenError::InvalidAccountData)
    );
    // Name fits but the pair-count prefix does not.
    let mut bytes = vec![0u8; 64];
    bytes.extend_from_slice(&4u32.to_le_bytes());
    bytes.extend_from_slice(&[0u8; 12]);
    assert_eq!(bytes.len(), 80);
    assert_eq!(
        Metadata::from_bytes(&bytes).err(),
        Some(TokenError::InvalidAccountData)
    );
}

#[test]
fn from_bytes_field_exactly_fills_data() {
    // uri runs to the last byte before the pair count: accepted.
    let bytes = create_test_metadata_bytes(&[9u8; 32], &[1u8; 32], "a", "bb", "ccc", &[]);
    let metadata = Metadata::from_bytes(&bytes).unwrap();
    assert_eq!(metadata.name(), b"a");
    assert_eq!(metadata.symbol(), b"bb");
    assert_eq!(metadata.uri(), b"ccc");
    // One byte less and the pair count no longer fits.
    assert!(Metadata::from_bytes(&bytes[..bytes.len() - 1]).is_err());
}

#[test]
fn iterator_next_is_fused() {
    let bytes = create_test_metadata_bytes(&[0u8; 32], &[0u8; 32], "", "", "", &[("k", "v")]);
    let metadata = Metadata::from_bytes(&bytes).unwrap();
    let mut it = metadata.additional_metadata_iter();
    assert_eq!(it.next(), Some((b"k" as &[u8], b"v" as &[u8])));
    assert_eq!(it.next(), None);
    assert_eq!(it.next(), None);
}

#[test]
fn trailing_data_after_pairs_keeps_pairs() {
    let mut bytes =
        create_test_metadata_bytes(&[0u8; 32], &[0u8; 32], "n", "s", "u", &[("a", "1"), ("b", "22")]);
    bytes.extend_from_slice(&[0xAAu8; 5]);
    let metadata = Metadata::from_bytes(&bytes).unwrap();
    assert_eq!(metadata.name(), b"n");
    assert_eq!(metadata.additional_metadata().len(), 2 * 8 + 1 + 1 + 1 + 2 + 5);
    let kv = metadata.additional_metadata_iter().collect_pairs();
    assert_eq!(kv, vec![(b"a" as &[u8], b"1" as &[u8]), (b"b" as &[u8], b"22" as &[u8])]);
}
