use snappy::compress;
use snappy::uncompress;
use snappy::validate_compressed_buffer;

fn prop_identity(data: Vec<u8>) -> bool {
    Some(data.clone()) == uncompress(&compress(&data))
}

fn prop_compressed_data_validates(data: Vec<u8>) -> bool {
    validate_compressed_buffer(&compress(&data))
}

fn prop_validate_agrees_with_uncompress(data: Vec<u8>) -> bool {
    let uncompress_opt = uncompress(&data);
    if validate_compressed_buffer(&data) {
        uncompress_opt.is_some()
    } else {
        uncompress_opt.is_none()
    }
}

#[test]
fn qc_identity() {
    quickcheck::quickcheck(prop_identity as fn(Vec<u8>) -> bool);
}

#[test]
fn qc_compressed_data_validates() {
    quickcheck::quickcheck(prop_compressed_data_validates as fn(Vec<u8>) -> bool);
}

#[test]
fn qc_validate_agrees_with_uncompress() {
    quickcheck::quickcheck(prop_validate_agrees_with_uncompress as fn(Vec<u8>) -> bool);
}

#[test]
fn empty_input_round_trip() {
    assert_eq!(uncompress(&compress(&[])), Some(vec![]));
}

#[test]
fn empty_payload_compresses_to_bare_header() {
    assert_eq!(compress(&[]), vec![0x00]);
}

#[test]
fn single_byte_compresses_to_header_and_literal() {
    assert_eq!(compress(&[0x61]), vec![0x01, 0x00, 0x61]);
}

#[test]
fn round_trip_repetitive_payload() {
    let mut data: Vec<u8> = Vec::new();
    for i in 0..4096u32 {
        data.push((i % 7) as u8);
    }
    let block = compress(&data);
    assert!(block.len() < data.len());
    assert_eq!(uncompress(&block), Some(data));
}

#[test]
fn round_trip_incompressible_payload() {
    let mut data: Vec<u8> = Vec::new();
    let mut state: u32 = 0x12345678;
    for _ in 0..1024 {
        state = state.wrapping_mul(1103515245).wrapping_add(12345);
        data.push((state >> 16) as u8);
    }
    assert_eq!(uncompress(&compress(&data)), Some(data));
}

#[test]
fn compressed_output_validates() {
    assert!(validate_compressed_buffer(&compress(&[])));
    assert!(validate_compressed_buffer(&compress(&[1, 2, 3, 4, 5])));
}

#[test]
fn capacity_bound_holds() {
    for len in [0usize, 1, 16, 100, 4096] {
        let data = vec![0xABu8; len];
        assert!(compress(&data).len() <= 32 + len + len / 6);
    }
}

#[test]
fn empty_sequence_is_not_a_block() {
    assert_eq!(uncompress(&[]), None);
    assert!(!validate_compressed_buffer(&[]));
}

#[test]
fn valid_empty_block_uncompresses_to_empty_payload() {
    assert_eq!(uncompress(&[0x00]), Some(vec![]));
    assert!(validate_compressed_buffer(&[0x00]));
}

#[test]
fn zero_length_oracle_malformed_block_is_invalid() {
    // The header claims a decompressed length of zero, but the trailing byte
    // makes the block malformed: the ambiguity must resolve to a rejection,
    // not an empty payload.
    let crafted = [0x00, 0x00];
    assert_eq!(uncompress(&crafted), None);
    assert!(!validate_compressed_buffer(&crafted));
}

#[test]
fn corrupt_block_body_is_invalid() {
    // A plausible header (five decompressed bytes) followed by a truncated
    // copy operation.
    let corrupt = [0x05, 0xFF];
    assert_eq!(uncompress(&corrupt), None);
    assert!(!validate_compressed_buffer(&corrupt));
}

#[test]
fn unterminated_header_is_invalid() {
    // A varint of continuation bytes only never yields a length.
    let bad_header = [0x80, 0x80, 0x80, 0x80, 0x80];
    assert_eq!(uncompress(&bad_header), None);
    assert!(!validate_compressed_buffer(&bad_header));
}

#[test]
fn validation_is_idempotent() {
    let valid = compress(&[9, 9, 9]);
    assert_eq!(
        validate_compressed_buffer(&valid),
        validate_compressed_buffer(&valid)
    );
    let invalid = [0x00, 0x00];
    assert_eq!(
        validate_compressed_buffer(&invalid),
        validate_compressed_buffer(&invalid)
    );
}
