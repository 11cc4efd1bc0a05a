use delegation::codec::{
    deserialize_delegate_ix_data, serialize_delegate_ix_data, DelegateConfig,
};
use delegation::error::DelegateError;

fn payload(seeds: &[&[u8]], commit_frequency_ms: u32, validator: [u8; 32]) -> Vec<u8> {
    let mut bytes = Vec::new();
    bytes.extend_from_slice(&(seeds.len() as u32).to_le_bytes());
    for seed in seeds {
        bytes.extend_from_slice(&(seed.len() as u32).to_le_bytes());
        bytes.extend_from_slice(seed);
    }
    bytes.extend_from_slice(&commit_frequency_ms.to_le_bytes());
    bytes.extend_from_slice(&validator);
    bytes
}

#[test]
fn decodes_seeds_and_config_in_order() {
    let payer = [7u8; 32];
    let validator = [9u8; 32];
    let bytes = payload(&[b"counter", &payer], 1000, validator);
    let (seeds, config) = deserialize_delegate_ix_data(&bytes).unwrap();
    assert_eq!(seeds, vec![b"counter".to_vec(), payer.to_vec()]);
    assert_eq!(config, DelegateConfig { commit_frequency_ms: 1000, validator });
}

#[test]
fn decodes_exact_bytes() {
    let mut bytes = vec![2, 0, 0, 0];
    bytes.extend_from_slice(&[3, 0, 0, 0, 0xaa, 0xbb, 0xcc]);
    bytes.extend_from_slice(&[1, 0, 0, 0, 0xdd]);
    bytes.extend_from_slice(&[0x04, 0x03, 0x02, 0x01]);
    bytes.extend_from_slice(&[5u8; 32]);
    let (seeds, config) = deserialize_delegate_ix_data(&bytes).unwrap();
    assert_eq!(seeds, vec![vec![0xaa, 0xbb, 0xcc], vec![0xdd]]);
    assert_eq!(config.commit_frequency_ms, 0x0102_0304);
    assert_eq!(config.validator, [5u8; 32]);
}

#[test]
fn decodes_largest_commit_frequency() {
    let bytes = payload(&[], u32::MAX, [0u8; 32]);
    let (_, config) = deserialize_delegate_ix_data(&bytes).unwrap();
    assert_eq!(config.commit_frequency_ms, u32::MAX);
}

#[test]
fn decodes_empty_seed_list() {
    let bytes = payload(&[], 5, [1u8; 32]);
    assert_eq!(bytes.len(), 40);
    let (seeds, config) = deserialize_delegate_ix_data(&bytes).unwrap();
    assert!(seeds.is_empty());
    assert_eq!(config, DelegateConfig { commit_frequency_ms: 5, validator: [1u8; 32] });
}

#[test]
fn decodes_empty_seed_inside_list() {
    let bytes = payload(&[b"", b"a", b""], 1, [2u8; 32]);
    let (seeds, _) = deserialize_delegate_ix_data(&bytes).unwrap();
    assert_eq!(seeds, vec![vec![], vec![b'a'], vec![]]);
}

#[test]
fn decodes_long_seed_without_limit() {
    let long = vec![0x5au8; 70_000];
    let bytes = payload(&[&long], 1, [2u8; 32]);
    let (seeds, _) = deserialize_delegate_ix_data(&bytes).unwrap();
    assert_eq!(seeds, vec![long]);
}

#[test]
fn decodes_many_seeds_without_limit() {
    let seeds: Vec<&[u8]> = (0..300).map(|_| &b"s"[..]).collect();
    let bytes = payload(&seeds, 1, [2u8; 32]);
    let (decoded, _) = deserialize_delegate_ix_data(&bytes).unwrap();
    assert_eq!(decoded.len(), 300);
    assert!(decoded.iter().all(|seed| seed == b"s"));
}

#[test]
fn rejects_empty_input() {
    assert_eq!(deserialize_delegate_ix_data(&[]), Err(DelegateError::InvalidPayload));
}

#[test]
fn rejects_truncated_seed_count() {
    assert_eq!(deserialize_delegate_ix_data(&[1, 0, 0]), Err(DelegateError::InvalidPayload));
}

#[test]
fn rejects_missing_seed() {
    let mut bytes = vec![1, 0, 0, 0];
    bytes.extend_from_slice(&[0u8; 36]);
    // One seed is announced; its length prefix reads 0, and then only 32
    // bytes are left for the fixed record.
    assert_eq!(deserialize_delegate_ix_data(&bytes), Err(DelegateError::InvalidPayload));
}

#[test]
fn rejects_seed_longer_than_input() {
    let mut bytes = vec![1, 0, 0, 0];
    bytes.extend_from_slice(&[200, 0, 0, 0]);
    bytes.extend_from_slice(&[0u8; 36]);
    assert_eq!(deserialize_delegate_ix_data(&bytes), Err(DelegateError::InvalidPayload));
}

#[test]
fn rejects_truncated_seed_length() {
    let bytes = vec![1, 0, 0, 0, 3, 0];
    assert_eq!(deserialize_delegate_ix_data(&bytes), Err(DelegateError::InvalidPayload));
}

#[test]
fn rejects_huge_seed_count() {
    let mut bytes = vec![0xff, 0xff, 0xff, 0xff];
    bytes.extend_from_slice(&[0u8; 36]);
    assert_eq!(deserialize_delegate_ix_data(&bytes), Err(DelegateError::InvalidPayload));
}

#[test]
fn rejects_short_record() {
    let mut bytes = payload(&[b"counter"], 1000, [9u8; 32]);
    bytes.pop();
    assert_eq!(deserialize_delegate_ix_data(&bytes), Err(DelegateError::InvalidPayload));
}

#[test]
fn rejects_missing_record() {
    let bytes = vec![1, 0, 0, 0, 1, 0, 0, 0, 0x61];
    assert_eq!(deserialize_delegate_ix_data(&bytes), Err(DelegateError::InvalidPayload));
}

#[test]
fn rejects_trailing_bytes() {
    let mut bytes = payload(&[b"counter"], 1000, [9u8; 32]);
    bytes.push(0);
    assert_eq!(deserialize_delegate_ix_data(&bytes), Err(DelegateError::InvalidPayload));
}

#[test]
fn encodes_exact_bytes() {
    let seeds = vec![vec![0xaa, 0xbb, 0xcc], vec![]];
    let config = DelegateConfig { commit_frequency_ms: 0x0a0b_0c0d, validator: [6u8; 32] };
    let mut expected = vec![2, 0, 0, 0, 3, 0, 0, 0, 0xaa, 0xbb, 0xcc, 0, 0, 0, 0];
    expected.extend_from_slice(&[0x0d, 0x0c, 0x0b, 0x0a]);
    expected.extend_from_slice(&[6u8; 32]);
    assert_eq!(serialize_delegate_ix_data(&seeds, &config), Ok(expected));
}

#[test]
fn encodes_what_the_layout_says() {
    let payer = [7u8; 32];
    let seeds = vec![b"counter".to_vec(), payer.to_vec()];
    let config = DelegateConfig { commit_frequency_ms: 1000, validator: [9u8; 32] };
    assert_eq!(
        serialize_delegate_ix_data(&seeds, &config),
        Ok(payload(&[b"counter", &payer], 1000, [9u8; 32]))
    );
}

#[test]
fn decoding_inverts_encoding() {
    let cases: Vec<Vec<Vec<u8>>> = vec![
        vec![],
        vec![vec![]],
        vec![vec![1], vec![2, 3], vec![]],
        vec![vec![0xff; 300], vec![0; 256], vec![1; 255]],
    ];
    for seeds in cases {
        let config = DelegateConfig { commit_frequency_ms: 65_536, validator: [3u8; 32] };
        let bytes = serialize_delegate_ix_data(&seeds, &config).unwrap();
        assert_eq!(deserialize_delegate_ix_data(&bytes), Ok((seeds, config)));
    }
}

#[test]
fn encoding_inverts_decoding() {
    let bytes = payload(&[b"a", b"bc", b""], 77, [4u8; 32]);
    let (seeds, config) = deserialize_delegate_ix_data(&bytes).unwrap();
    assert_eq!(serialize_delegate_ix_data(&seeds, &config), Ok(bytes));
}
