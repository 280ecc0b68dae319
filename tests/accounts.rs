use anchor_client_ext::{
    account_filters, collect_decoded, fixed_payload, sort_token_pair, strip_discriminator,
    Address, DecodeError, FilterError, Memcmp, MemcmpEncodedBytes, MemcmpEncoding, PairError,
    RpcFilterType, TAG_LEN,
};

const TAG: [u8; 8] = [1, 2, 3, 4, 5, 6, 7, 8];

fn address(b: u8) -> Address {
    let mut bytes = [0u8; 32];
    bytes[31] = b;
    Address { bytes }
}

#[test]
fn filter_set_for_caller_filter() {
    let caller = vec![Memcmp {
        offset: 8,
        bytes: MemcmpEncodedBytes::Bytes(vec![0x01]),
        encoding: None,
    }];
    let filters = account_filters(&TAG, 40, &caller).unwrap();
    assert_eq!(filters.len(), 3);
    assert!(matches!(filters[0], RpcFilterType::DataSize(48)));
    match &filters[1] {
        RpcFilterType::Memcmp(m) => {
            assert_eq!(m.offset, 0);
            assert!(matches!(&m.bytes, MemcmpEncodedBytes::Base58(s) if s == "An6UebxCZd"));
            assert_eq!(m.encoding, Some(MemcmpEncoding::Binary));
        }
        RpcFilterType::DataSize(_) => panic!("expected the tag filter"),
    }
    match &filters[2] {
        RpcFilterType::Memcmp(m) => {
            assert_eq!(m.offset, 8);
            assert!(matches!(&m.bytes, MemcmpEncodedBytes::Bytes(b) if b == &vec![0x01]));
            assert_eq!(m.encoding, None);
        }
        RpcFilterType::DataSize(_) => panic!("expected the caller's filter"),
    }
}

#[test]
fn filter_set_without_caller_filters() {
    let filters = account_filters(&[0u8; 8], 0, &[]).unwrap();
    assert_eq!(filters.len(), 2);
    assert!(matches!(filters[0], RpcFilterType::DataSize(8)));
    assert!(matches!(&filters[1],
        RpcFilterType::Memcmp(m) if matches!(&m.bytes, MemcmpEncodedBytes::Base58(s) if s == "11111111")));
}

#[test]
fn filter_set_keeps_one_size_filter_for_many_callers() {
    let caller: Vec<Memcmp> = (0..5)
        .map(|i| Memcmp {
            offset: i,
            bytes: MemcmpEncodedBytes::Base58("2".to_string()),
            encoding: Some(MemcmpEncoding::Binary),
        })
        .collect();
    let filters = account_filters(&[255u8; 8], 100, &caller).unwrap();
    assert_eq!(filters.len(), 7);
    let sizes: Vec<u64> = filters
        .iter()
        .filter_map(|f| match f {
            RpcFilterType::DataSize(n) => Some(*n),
            RpcFilterType::Memcmp(_) => None,
        })
        .collect();
    assert_eq!(sizes, vec![108]);
    assert!(matches!(&filters[1],
        RpcFilterType::Memcmp(m) if matches!(&m.bytes, MemcmpEncodedBytes::Base58(s) if s == "jpXCZedGfVQ")));
    for (i, f) in filters[2..].iter().enumerate() {
        assert!(matches!(f, RpcFilterType::Memcmp(m) if m.offset == i));
    }
}

#[test]
fn filter_size_overflow_is_refused() {
    assert_eq!(account_filters(&TAG, u64::MAX, &[]).unwrap_err(), FilterError::SizeOverflow);
    assert_eq!(account_filters(&TAG, u64::MAX - 7, &[]).unwrap_err(), FilterError::SizeOverflow);
    let largest = account_filters(&TAG, u64::MAX - 8, &[]).unwrap();
    assert!(matches!(largest[0], RpcFilterType::DataSize(u64::MAX)));
}

#[test]
fn tag_check() {
    let mut data = TAG.to_vec();
    data.extend_from_slice(&[9, 10, 11]);
    assert_eq!(strip_discriminator(&data, &TAG).unwrap(), &[9, 10, 11]);
    assert_eq!(strip_discriminator(&TAG, &TAG).unwrap(), &[] as &[u8]);
    assert_eq!(
        strip_discriminator(&[1, 2, 3], &TAG).unwrap_err(),
        DecodeError::DiscriminatorNotFound
    );
    assert_eq!(strip_discriminator(&[], &TAG).unwrap_err(), DecodeError::DiscriminatorNotFound);
    let mut other = data.clone();
    other[7] = 0;
    assert_eq!(
        strip_discriminator(&other, &TAG).unwrap_err(),
        DecodeError::DiscriminatorMismatch
    );
}

#[test]
fn fixed_payload_is_the_bytes_after_the_tag() {
    let data: Vec<u8> = (0..48).collect();
    let payload = fixed_payload(&data, 40);
    assert_eq!(payload.len(), 40);
    assert_eq!(payload, &data[TAG_LEN..]);
    assert_eq!(payload[0], 8);
    assert_eq!(fixed_payload(&TAG, 0), &[] as &[u8]);
}

#[test]
fn batch_keeps_pairs_and_order() {
    let batch = vec![(address(3), Ok(30u64)), (address(1), Ok(10)), (address(2), Ok(20))];
    let out = collect_decoded(batch).unwrap();
    assert_eq!(out, vec![(address(3), 30), (address(1), 10), (address(2), 20)]);
    let empty: Vec<(Address, Result<u64, DecodeError>)> = vec![];
    assert_eq!(collect_decoded(empty).unwrap(), vec![]);
}

#[test]
fn batch_fails_on_first_error() {
    let batch = vec![
        (address(1), Ok(10u64)),
        (address(2), Err(DecodeError::DiscriminatorMismatch)),
        (address(3), Ok(30)),
        (address(4), Err(DecodeError::DidNotDeserialize)),
    ];
    assert_eq!(collect_decoded(batch).unwrap_err(), DecodeError::DiscriminatorMismatch);
    let last = vec![(address(1), Ok(10u64)), (address(2), Err(DecodeError::DidNotDeserialize))];
    assert_eq!(collect_decoded(last).unwrap_err(), DecodeError::DidNotDeserialize);
}

#[test]
fn token_pair_is_sorted() {
    let a = address(1);
    let b = address(2);
    assert_eq!(sort_token_pair((a, b)), Ok((a, b)));
    assert_eq!(sort_token_pair((b, a)), Ok((a, b)));
    assert_eq!(sort_token_pair((a, a)), Err(PairError::Equal));
    let mut first = [0u8; 32];
    first[0] = 1;
    let first = Address { bytes: first };
    let last = Address { bytes: [0xff; 32] };
    assert_eq!(sort_token_pair((last, first)), Ok((first, last)));
}
