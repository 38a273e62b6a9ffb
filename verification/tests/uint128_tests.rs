use concrete_cpu::uint128::Uint128;

#[test]
fn round_trip_identity_patterns() {
    let patterns: [[u8; 16]; 5] = [
        [0; 16],
        [0xff; 16],
        [1, 2, 3, 4, 5, 6, 7, 8, 9, 10, 11, 12, 13, 14, 15, 16],
        [0x80, 0, 0, 0, 0, 0, 0, 0, 0, 0, 0, 0, 0, 0, 0, 0x80],
        [0xde, 0xad, 0xbe, 0xef, 0x01, 0x23, 0x45, 0x67, 0x89, 0xab, 0xcd, 0xef, 0x10, 0x32, 0x54,
            0x76],
    ];
    for bytes in patterns {
        let decoded = Uint128::from_le_bytes(bytes).to_u128();
        let reencoded = Uint128::from_u128(decoded);
        assert_eq!(reencoded.little_endian_bytes, bytes);
    }
}

#[test]
fn decode_is_little_endian() {
    let mut bytes = [0u8; 16];
    bytes[0] = 0x02;
    bytes[1] = 0x01;
    assert_eq!(Uint128::from_le_bytes(bytes).to_u128(), 0x0102);

    let mut high = [0u8; 16];
    high[15] = 0x80;
    assert_eq!(Uint128::from_le_bytes(high).to_u128(), 0x80u128 << 120);
}

#[test]
fn decode_extremes() {
    assert_eq!(Uint128::from_le_bytes([0; 16]).to_u128(), 0);
    assert_eq!(Uint128::from_le_bytes([0xff; 16]).to_u128(), u128::MAX);
}

#[test]
fn encode_exact_bytes() {
    let r = Uint128::from_u128(0x0102);
    let mut expected = [0u8; 16];
    expected[0] = 0x02;
    expected[1] = 0x01;
    assert_eq!(r.little_endian_bytes, expected);

    assert_eq!(Uint128::from_u128(u128::MAX).little_endian_bytes, [0xff; 16]);
    assert_eq!(Uint128::from_u128(0).little_endian_bytes, [0; 16]);
}

#[test]
fn value_then_encode_round_trip() {
    for v in [0u128, 1, 255, 256, u64::MAX as u128, (u64::MAX as u128) + 1, u128::MAX] {
        assert_eq!(Uint128::from_u128(v).to_u128(), v);
    }
}

#[test]
fn from_le_bytes_keeps_bytes() {
    let bytes = [7u8, 6, 5, 4, 3, 2, 1, 0, 0xf0, 0xe0, 0xd0, 0xc0, 0xb0, 0xa0, 0x90, 0x80];
    assert_eq!(Uint128::from_le_bytes(bytes).little_endian_bytes, bytes);
}
