use dex_cpi::codec::{
    read_field_32, read_field_u64, read_field_u8, read_obfuscated_field_32, read_u64_le,
    u64_le_bytes, write_u64_le, xor_scalar, xor_transform, CodecError,
};

const KEYS: [u64; 4] = [
    0xfb5c_e87a_ae44_3c38,
    0x04a2_1784_51ba_c3c7,
    0x04a1_1787_51b9_c3c6,
    0x04a0_1786_51b8_c3c5,
];

const USDC: [u8; 32] = [
    198, 250, 122, 243, 190, 219, 173, 58, 61, 101, 243, 106, 171, 201, 116, 49, 177, 187, 228,
    194, 210, 246, 224, 228, 124, 166, 2, 3, 69, 47, 93, 97,
];

const USDC_ENCODED: [u8; 32] = [
    254, 198, 62, 93, 196, 51, 241, 193, 250, 166, 73, 59, 47, 222, 214, 53, 119, 120, 93, 147,
    85, 225, 65, 224, 185, 101, 186, 82, 195, 56, 253, 101,
];

#[test]
fn le_bytes_of_an_integer() {
    assert_eq!(u64_le_bytes(1_000_000), [0x40, 0x42, 0x0f, 0, 0, 0, 0, 0]);
    assert_eq!(
        u64_le_bytes(0x0102_0304_0506_0708),
        [8, 7, 6, 5, 4, 3, 2, 1]
    );
    assert_eq!(u64_le_bytes(u64::MAX), [0xff; 8]);
    assert_eq!(u64_le_bytes(0x0102_0304_0506_0708), 0x0102_0304_0506_0708u64.to_le_bytes());
}

#[test]
fn integer_of_le_bytes() {
    let data = [0xaa, 8, 7, 6, 5, 4, 3, 2, 1, 0xbb];
    assert_eq!(read_u64_le(&data, 1), 0x0102_0304_0506_0708);
    assert_eq!(read_u64_le(&[0xffu8; 8], 0), u64::MAX);
    assert_eq!(read_u64_le(&data, 0), u64::from_le_bytes([0xaa, 8, 7, 6, 5, 4, 3, 2]));
}

#[test]
fn write_leaves_other_bytes() {
    let mut buf = [0x11u8; 12];
    write_u64_le(&mut buf, 3, 0x0102_0304_0506_0708);
    assert_eq!(buf, [0x11, 0x11, 0x11, 8, 7, 6, 5, 4, 3, 2, 1, 0x11]);
}

#[test]
fn le_round_trip() {
    for x in [0u64, 1, 255, 256, 1_000_000, 0xdead_beef_cafe_f00d, u64::MAX] {
        assert_eq!(read_u64_le(&u64_le_bytes(x), 0), x);
    }
}

#[test]
fn transform_of_a_known_field() {
    assert_eq!(xor_transform(&USDC, &KEYS), Ok(USDC_ENCODED));
    assert_eq!(xor_transform(&USDC_ENCODED, &KEYS), Ok(USDC));
}

#[test]
fn transform_is_an_involution() {
    let mut field = [0u8; 32];
    for (i, b) in field.iter_mut().enumerate() {
        *b = (i * 37 + 5) as u8;
    }
    let keys = [1u64, u64::MAX, 0x8000_0000_0000_0000, 0x0123_4567_89ab_cdef];
    let once = xor_transform(&field, &keys).unwrap();
    assert_ne!(once, field);
    assert_eq!(xor_transform(&once, &keys), Ok(field));
}

#[test]
fn transform_refuses_a_keyset_of_other_width() {
    assert_eq!(xor_transform(&USDC, &KEYS[..3]), Err(CodecError::KeysetWidthMismatch));
    assert_eq!(xor_transform(&USDC, &[]), Err(CodecError::KeysetWidthMismatch));
    assert_eq!(
        xor_transform(&USDC, &[1, 2, 3, 4, 5]),
        Err(CodecError::KeysetWidthMismatch)
    );
}

#[test]
fn scalar_transform() {
    assert_eq!(xor_scalar(0x1122_3344_5566_7788, &KEYS, 2), Ok(0x1583_24c3_04df_b44e));
    assert_eq!(xor_scalar(0x1122_3344_5566_7788, &KEYS, 6), Ok(0x1583_24c3_04df_b44e));
    assert_eq!(xor_scalar(42, &KEYS, 1), Ok(0x04a2_1784_51ba_c3ed));
    assert_eq!(xor_scalar(0x04a2_1784_51ba_c3ed, &KEYS, 1), Ok(42));
    assert_eq!(xor_scalar(42, &[], 0), Err(CodecError::KeysetWidthMismatch));
}

#[test]
fn field_readers_at_the_boundary() {
    let mut buffer = vec![0u8; 64];
    for (i, b) in buffer.iter_mut().enumerate() {
        *b = i as u8;
    }
    let mut expected = [0u8; 32];
    for (i, b) in expected.iter_mut().enumerate() {
        *b = (32 + i) as u8;
    }
    assert_eq!(read_field_32(&buffer, 64, 32), Some(expected));
    assert_eq!(read_field_32(&buffer, 65, 32), None);
    assert_eq!(read_field_32(&buffer, 0, 33), None);
    assert_eq!(read_field_32(&buffer[..63], 0, 32), None);
    assert_eq!(read_field_32(&buffer, 0, usize::MAX), None);
    assert_eq!(read_field_32(&[], 0, 0), None);

    assert_eq!(read_field_u64(&buffer, 64, 56), Some(0x3f3e_3d3c_3b3a_3938));
    assert_eq!(read_field_u64(&buffer, 64, 57), None);
    assert_eq!(read_field_u64(&buffer, 65, 56), None);
    assert_eq!(read_field_u64(&buffer, 0, usize::MAX), None);

    assert_eq!(read_field_u8(&buffer, 64, 63), Some(63));
    assert_eq!(read_field_u8(&buffer, 64, 64), None);
    assert_eq!(read_field_u8(&buffer, 65, 0), None);
    assert_eq!(read_field_u8(&[], 0, 0), None);
}

#[test]
fn obfuscated_field_reader() {
    let mut buffer = vec![0u8; 40];
    buffer[8..40].copy_from_slice(&USDC_ENCODED);
    assert_eq!(read_obfuscated_field_32(&buffer, 40, 8, &KEYS), Some(USDC));
    assert_eq!(read_obfuscated_field_32(&buffer, 41, 8, &KEYS), None);
    assert_eq!(read_obfuscated_field_32(&buffer, 40, 9, &KEYS), None);
    assert_eq!(read_obfuscated_field_32(&buffer, 40, 8, &KEYS[..2]), None);
    assert_eq!(buffer[8..40], USDC_ENCODED);
}
