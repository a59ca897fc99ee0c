use anchor_lang::solana_program::hash::hashv;
use grant_program::message::{
    encode_pop_message, entry_hash_text, parse_pop_message, pop_entry_hash, PopProofMessage,
    POP_DOMAIN_V1, POP_DOMAIN_V2, POP_HASH_LEN,
    POP_MESSAGE_LEN_V1, POP_MESSAGE_LEN_V2, POP_MESSAGE_VERSION_V1, POP_MESSAGE_VERSION_V2,
};
use grant_program::ErrorCode;

fn sample(version: u8) -> PopProofMessage {
    PopProofMessage {
        version,
        grant: [1; 32],
        claimer: [2; 32],
        period_index: 0x0102_0304_0506_0708,
        prev_hash: [3; 32],
        stream_prev_hash: [4; 32],
        audit_hash: if version == 2 { [5; 32] } else { [0; 32] },
        entry_hash: [6; 32],
        issued_at: -1_700_000_000,
    }
}

fn wire(m: &PopProofMessage) -> Vec<u8> {
    let mut out: Vec<u8> = vec![m.version];
    out.extend_from_slice(&m.grant);
    out.extend_from_slice(&m.claimer);
    out.extend_from_slice(&m.period_index.to_le_bytes());
    out.extend_from_slice(&m.prev_hash);
    out.extend_from_slice(&m.stream_prev_hash);
    if m.version == 2 {
        out.extend_from_slice(&m.audit_hash);
    }
    out.extend_from_slice(&m.entry_hash);
    out.extend_from_slice(&m.issued_at.to_le_bytes());
    out
}

#[test]
fn message_constants_have_their_values() {
    assert_eq!(POP_HASH_LEN, 32);
    assert_eq!(POP_MESSAGE_VERSION_V1, 1);
    assert_eq!(POP_MESSAGE_VERSION_V2, 2);
    assert_eq!(POP_MESSAGE_LEN_V1, 177);
    assert_eq!(POP_MESSAGE_LEN_V2, 209);
    assert_eq!(&POP_DOMAIN_V1, b"we-ne:pop:v1");
    assert_eq!(&POP_DOMAIN_V2, b"we-ne:pop:v2");
}

#[test]
fn parse_reads_a_version_1_message() {
    let m = sample(1);
    let bytes = wire(&m);
    assert_eq!(bytes.len(), 177);
    assert_eq!(parse_pop_message(&bytes), Ok(m));
}

#[test]
fn parse_reads_a_version_2_message() {
    let m = sample(2);
    let bytes = wire(&m);
    assert_eq!(bytes.len(), 209);
    let parsed = parse_pop_message(&bytes).unwrap();
    assert_eq!(parsed, m);
    assert_eq!(parsed.audit_hash, [5; 32]);
    assert_eq!(parsed.entry_hash, [6; 32]);
    assert_eq!(parsed.issued_at, -1_700_000_000);
}

#[test]
fn parse_reads_fields_at_their_offsets() {
    let mut bytes: Vec<u8> = vec![0; 177];
    bytes[0] = 1;
    bytes[1] = 0xa1;
    bytes[33] = 0xa2;
    bytes[65] = 0x05;
    bytes[72] = 0x01;
    bytes[73] = 0xa3;
    bytes[105] = 0xa4;
    bytes[137] = 0xa5;
    bytes[169] = 0x58;
    bytes[170] = 0x02;
    let m = parse_pop_message(&bytes).unwrap();
    assert_eq!(m.version, 1);
    assert_eq!(m.grant[0], 0xa1);
    assert_eq!(m.claimer[0], 0xa2);
    assert_eq!(m.period_index, 0x0100_0000_0000_0005);
    assert_eq!(m.prev_hash[0], 0xa3);
    assert_eq!(m.stream_prev_hash[0], 0xa4);
    assert_eq!(m.audit_hash, [0; 32]);
    assert_eq!(m.entry_hash[0], 0xa5);
    assert_eq!(m.issued_at, 600);
}

#[test]
fn parse_gives_version_1_a_zero_audit_hash() {
    let mut m = sample(1);
    m.audit_hash = [0x77; 32];
    let parsed = parse_pop_message(&wire(&m)).unwrap();
    assert_eq!(parsed.audit_hash, [0; 32]);
}

#[test]
fn parse_refuses_an_empty_text() {
    assert_eq!(parse_pop_message(&[]), Err(ErrorCode::InvalidPopMessageLength));
}

#[test]
fn parse_refuses_an_unknown_version() {
    for version in [0u8, 3, 0xff] {
        let mut bytes = wire(&sample(1));
        bytes[0] = version;
        assert_eq!(
            parse_pop_message(&bytes),
            Err(ErrorCode::InvalidPopMessageVersion)
        );
        assert_eq!(
            parse_pop_message(&[version]),
            Err(ErrorCode::InvalidPopMessageVersion)
        );
    }
}

#[test]
fn parse_refuses_every_other_length() {
    let v1 = wire(&sample(1));
    let v2 = wire(&sample(2));
    assert_eq!(
        parse_pop_message(&v1[..176]),
        Err(ErrorCode::InvalidPopMessageLength)
    );
    assert_eq!(
        parse_pop_message(&v2[..208]),
        Err(ErrorCode::InvalidPopMessageLength)
    );
    assert_eq!(parse_pop_message(&[1]), Err(ErrorCode::InvalidPopMessageLength));
    let mut longer = v1.clone();
    longer.push(0);
    assert_eq!(
        parse_pop_message(&longer),
        Err(ErrorCode::InvalidPopMessageLength)
    );
    let mut v1_as_v2 = v1.clone();
    v1_as_v2[0] = 2;
    assert_eq!(
        parse_pop_message(&v1_as_v2),
        Err(ErrorCode::InvalidPopMessageLength)
    );
    let mut v2_as_v1 = v2.clone();
    v2_as_v1[0] = 1;
    assert_eq!(
        parse_pop_message(&v2_as_v1),
        Err(ErrorCode::InvalidPopMessageLength)
    );
    assert_eq!(
        parse_pop_message(&vec![1u8; 113]),
        Err(ErrorCode::InvalidPopMessageLength)
    );
    assert_eq!(
        parse_pop_message(&vec![2u8; 145]),
        Err(ErrorCode::InvalidPopMessageLength)
    );
}

#[test]
fn entry_hash_of_version_1_is_the_known_digest() {
    let hash = pop_entry_hash(
        1,
        &[0; 32],
        &[0; 32],
        &[9; 32],
        &[1; 32],
        &[2; 32],
        0,
        1_700_000_000,
    );
    let expected: [u8; 32] = [
        0x07, 0x23, 0x7d, 0x32, 0x37, 0xf8, 0xed, 0x38, 0x45, 0x5a, 0xab, 0xa9, 0x23, 0x55, 0x2e,
        0x0e, 0x84, 0xfe, 0xb4, 0xe5, 0x57, 0x3c, 0x0c, 0xe0, 0x56, 0xcb, 0xb0, 0x7b, 0x3d, 0xbe,
        0x3d, 0xbc,
    ];
    assert_eq!(hash, Ok(expected));
}

#[test]
fn entry_hash_of_version_2_is_the_known_digest() {
    let hash = pop_entry_hash(2, &[0; 32], &[0; 32], &[9; 32], &[1; 32], &[2; 32], 3, -5);
    let expected: [u8; 32] = [
        0xfc, 0x03, 0x45, 0xc2, 0xdf, 0x2a, 0x3e, 0x32, 0x70, 0xa1, 0x6f, 0xac, 0xfd, 0xd1, 0x08,
        0x31, 0x9e, 0xaf, 0x46, 0x6f, 0xf3, 0x16, 0x7c, 0x51, 0x85, 0x30, 0xb2, 0x90, 0x64, 0x6c,
        0xc2, 0x72,
    ];
    assert_eq!(hash, Ok(expected));
}

#[test]
fn entry_hash_is_the_digest_of_the_parts_in_order() {
    let prev: [u8; 32] = [0x31; 32];
    let stream: [u8; 32] = [0x32; 32];
    let audit: [u8; 32] = [0x33; 32];
    let grant: [u8; 32] = [0x34; 32];
    let claimer: [u8; 32] = [0x35; 32];
    let period: u64 = 77;
    let issued: i64 = -123_456_789;
    let v1 = hashv(&[
        b"we-ne:pop:v1",
        &prev,
        &stream,
        &grant,
        &claimer,
        &period.to_le_bytes(),
        &issued.to_le_bytes(),
    ])
    .to_bytes();
    let v2 = hashv(&[
        b"we-ne:pop:v2",
        &prev,
        &stream,
        &audit,
        &grant,
        &claimer,
        &period.to_le_bytes(),
        &issued.to_le_bytes(),
    ])
    .to_bytes();
    assert_eq!(
        pop_entry_hash(1, &prev, &stream, &audit, &grant, &claimer, period, issued),
        Ok(v1)
    );
    assert_eq!(
        pop_entry_hash(2, &prev, &stream, &audit, &grant, &claimer, period, issued),
        Ok(v2)
    );
    assert_ne!(v1, v2);
}

#[test]
fn entry_hash_of_version_1_leaves_the_audit_hash_out() {
    let a = pop_entry_hash(1, &[1; 32], &[2; 32], &[0; 32], &[3; 32], &[4; 32], 5, 6);
    let b = pop_entry_hash(1, &[1; 32], &[2; 32], &[0xff; 32], &[3; 32], &[4; 32], 5, 6);
    assert_eq!(a, b);
    let c = pop_entry_hash(2, &[1; 32], &[2; 32], &[0; 32], &[3; 32], &[4; 32], 5, 6);
    let d = pop_entry_hash(2, &[1; 32], &[2; 32], &[0xff; 32], &[3; 32], &[4; 32], 5, 6);
    assert_ne!(c, d);
}

#[test]
fn entry_hash_refuses_an_unknown_version() {
    for version in [0u8, 3, 0xff] {
        assert_eq!(
            pop_entry_hash(version, &[0; 32], &[0; 32], &[0; 32], &[0; 32], &[0; 32], 0, 0),
            Err(ErrorCode::InvalidPopMessageVersion)
        );
    }
}

#[test]
fn entry_hash_changes_with_every_bit_of_every_field() {
    let base = pop_entry_hash(2, &[1; 32], &[2; 32], &[3; 32], &[4; 32], &[5; 32], 6, 7).unwrap();
    for byte in [0usize, 13, 31] {
        for bit in [0u8, 7] {
            let mut flipped: [u8; 32] = [1; 32];
            flipped[byte] ^= 1 << bit;
            assert_ne!(
                pop_entry_hash(2, &flipped, &[2; 32], &[3; 32], &[4; 32], &[5; 32], 6, 7).unwrap(),
                base
            );
            let mut flipped: [u8; 32] = [2; 32];
            flipped[byte] ^= 1 << bit;
            assert_ne!(
                pop_entry_hash(2, &[1; 32], &flipped, &[3; 32], &[4; 32], &[5; 32], 6, 7).unwrap(),
                base
            );
            let mut flipped: [u8; 32] = [3; 32];
            flipped[byte] ^= 1 << bit;
            assert_ne!(
                pop_entry_hash(2, &[1; 32], &[2; 32], &flipped, &[4; 32], &[5; 32], 6, 7).unwrap(),
                base
            );
            let mut flipped: [u8; 32] = [4; 32];
            flipped[byte] ^= 1 << bit;
            assert_ne!(
                pop_entry_hash(2, &[1; 32], &[2; 32], &[3; 32], &flipped, &[5; 32], 6, 7).unwrap(),
                base
            );
            let mut flipped: [u8; 32] = [5; 32];
            flipped[byte] ^= 1 << bit;
            assert_ne!(
                pop_entry_hash(2, &[1; 32], &[2; 32], &[3; 32], &[4; 32], &flipped, 6, 7).unwrap(),
                base
            );
        }
    }
    for bit in [0u32, 17, 63] {
        assert_ne!(
            pop_entry_hash(2, &[1; 32], &[2; 32], &[3; 32], &[4; 32], &[5; 32], 6 ^ (1 << bit), 7)
                .unwrap(),
            base
        );
        assert_ne!(
            pop_entry_hash(2, &[1; 32], &[2; 32], &[3; 32], &[4; 32], &[5; 32], 6, 7 ^ (1 << bit))
                .unwrap(),
            base
        );
    }
    assert_ne!(
        pop_entry_hash(1, &[1; 32], &[2; 32], &[3; 32], &[4; 32], &[5; 32], 6, 7).unwrap(),
        base
    );
}

#[test]
fn entry_hash_text_holds_tag_and_fields_in_order() {
    let v1 = entry_hash_text(1, &[1; 32], &[2; 32], &[3; 32], &[4; 32], &[5; 32], 0x0607, -2);
    let mut expected: Vec<u8> = b"we-ne:pop:v1".to_vec();
    expected.extend_from_slice(&[1; 32]);
    expected.extend_from_slice(&[2; 32]);
    expected.extend_from_slice(&[4; 32]);
    expected.extend_from_slice(&[5; 32]);
    expected.extend_from_slice(&[0x07, 0x06, 0, 0, 0, 0, 0, 0]);
    expected.extend_from_slice(&[0xfe, 0xff, 0xff, 0xff, 0xff, 0xff, 0xff, 0xff]);
    assert_eq!(v1.len(), 156);
    assert_eq!(v1, expected);

    let v2 = entry_hash_text(2, &[1; 32], &[2; 32], &[3; 32], &[4; 32], &[5; 32], 0x0607, -2);
    let mut expected: Vec<u8> = b"we-ne:pop:v2".to_vec();
    expected.extend_from_slice(&[1; 32]);
    expected.extend_from_slice(&[2; 32]);
    expected.extend_from_slice(&[3; 32]);
    expected.extend_from_slice(&[4; 32]);
    expected.extend_from_slice(&[5; 32]);
    expected.extend_from_slice(&[0x07, 0x06, 0, 0, 0, 0, 0, 0]);
    expected.extend_from_slice(&[0xfe, 0xff, 0xff, 0xff, 0xff, 0xff, 0xff, 0xff]);
    assert_eq!(v2.len(), 188);
    assert_eq!(v2, expected);
}

#[test]
fn encoding_writes_the_fields_in_order() {
    for version in [1u8, 2] {
        let m = sample(version);
        assert_eq!(encode_pop_message(&m), wire(&m));
    }
    let bytes = encode_pop_message(&sample(1));
    assert_eq!(bytes.len(), 177);
    assert_eq!(bytes[0], 1);
    assert_eq!(&bytes[1..33], &[1; 32]);
    assert_eq!(&bytes[33..65], &[2; 32]);
    assert_eq!(&bytes[65..73], &[8, 7, 6, 5, 4, 3, 2, 1]);
    assert_eq!(&bytes[73..105], &[3; 32]);
    assert_eq!(&bytes[105..137], &[4; 32]);
    assert_eq!(&bytes[137..169], &[6; 32]);
    assert_eq!(&bytes[169..177], &(-1_700_000_000i64).to_le_bytes());
    let bytes = encode_pop_message(&sample(2));
    assert_eq!(bytes.len(), 209);
    assert_eq!(&bytes[137..169], &[5; 32]);
    assert_eq!(&bytes[169..201], &[6; 32]);
}

#[test]
fn decoding_undoes_encoding() {
    for version in [1u8, 2] {
        let mut m = sample(version);
        for (period_index, issued_at) in [(0u64, 0i64), (u64::MAX, i64::MIN), (1, i64::MAX)] {
            m.period_index = period_index;
            m.issued_at = issued_at;
            assert_eq!(parse_pop_message(&encode_pop_message(&m)), Ok(m));
        }
    }
}
