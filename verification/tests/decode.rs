use trade_types::{parse_le, parse_u16_le, parse_u32_le, parse_u64_le, DecodeError, Width};

fn mismatch(expected: usize, actual: usize) -> DecodeError {
    DecodeError::LengthMismatch { expected, actual }
}

#[test]
fn u16_reads_low_byte_first() {
    assert_eq!(parse_u16_le(&[0x34, 0x12]), Ok(0x1234));
    assert_eq!(parse_u16_le(&[0x00, 0x00]), Ok(0));
    assert_eq!(parse_u16_le(&[0x01, 0x00]), Ok(1));
    assert_eq!(parse_u16_le(&[0x00, 0x01]), Ok(256));
    assert_eq!(parse_u16_le(&[0xff, 0xff]), Ok(u16::MAX));
}

#[test]
fn u32_reads_low_byte_first() {
    assert_eq!(parse_u32_le(&[0x78, 0x56, 0x34, 0x12]), Ok(0x1234_5678));
    assert_eq!(parse_u32_le(&[0x00, 0x00, 0x00, 0x80]), Ok(0x8000_0000));
    assert_eq!(parse_u32_le(&[0xff; 4]), Ok(u32::MAX));
    assert_eq!(parse_u32_le(&[0; 4]), Ok(0));
}

#[test]
fn u64_reads_low_byte_first() {
    assert_eq!(
        parse_u64_le(&[0xef, 0xcd, 0xab, 0x89, 0x67, 0x45, 0x23, 0x01]),
        Ok(0x0123_4567_89ab_cdef)
    );
    assert_eq!(parse_u64_le(&[0, 0, 0, 0, 0, 0, 0, 0x80]), Ok(1 << 63));
    assert_eq!(parse_u64_le(&[0xff; 8]), Ok(u64::MAX));
    assert_eq!(parse_u64_le(&[0; 8]), Ok(0));
}

#[test]
fn parse_le_goes_by_the_width() {
    assert_eq!(parse_le(&[0x34, 0x12], Width::Two), Ok(0x1234));
    assert_eq!(parse_le(&[0x78, 0x56, 0x34, 0x12], Width::Four), Ok(0x1234_5678));
    assert_eq!(parse_le(&[1, 0, 0, 0, 0, 0, 0, 1], Width::Eight), Ok((1 << 56) + 1));
    assert_eq!(parse_le(&[0x34, 0x12], Width::Four), Err(mismatch(4, 2)));
    assert_eq!(parse_le(&[0x78, 0x56, 0x34, 0x12], Width::Two), Err(mismatch(2, 4)));
    assert_eq!(parse_le(&[0; 7], Width::Eight), Err(mismatch(8, 7)));
}

#[test]
fn widths_count_their_bytes() {
    assert_eq!(Width::Two.bytes(), 2);
    assert_eq!(Width::Four.bytes(), 4);
    assert_eq!(Width::Eight.bytes(), 8);
}

#[test]
fn a_slice_of_the_wrong_length_is_refused() {
    let bytes = [0xaa_u8; 12];
    for len in 0..=12 {
        let slice = &bytes[..len];
        if len != 2 {
            assert_eq!(parse_u16_le(slice), Err(mismatch(2, len)));
        }
        if len != 4 {
            assert_eq!(parse_u32_le(slice), Err(mismatch(4, len)));
        }
        if len != 8 {
            assert_eq!(parse_u64_le(slice), Err(mismatch(8, len)));
        }
    }
}

#[test]
fn a_longer_slice_is_not_cut_short() {
    // The first two bytes alone would decode; the slice as a whole must not.
    assert_eq!(parse_u16_le(&[0x34, 0x12, 0x00]), Err(mismatch(2, 3)));
    assert_eq!(parse_u32_le(&[1, 2, 3, 4, 0, 0, 0, 0]), Err(mismatch(4, 8)));
    assert_eq!(parse_u64_le(&[1, 2, 3, 4, 5, 6, 7, 8, 9]), Err(mismatch(8, 9)));
}

#[test]
fn a_shorter_slice_is_not_padded() {
    assert_eq!(parse_u16_le(&[0x34]), Err(mismatch(2, 1)));
    assert_eq!(parse_u32_le(&[1, 2, 3]), Err(mismatch(4, 3)));
    assert_eq!(parse_u64_le(&[]), Err(mismatch(8, 0)));
}

/// A few bytes that differ in every position, shifted by `seed`.
fn pattern(seed: u8) -> [u8; 8] {
    let mut bytes = [0u8; 8];
    for (i, byte) in bytes.iter_mut().enumerate() {
        *byte = seed.wrapping_mul(37).wrapping_add((i as u8).wrapping_mul(59)).wrapping_add(seed >> 3);
    }
    bytes
}

#[test]
fn decoding_then_encoding_gives_the_bytes_back() {
    for seed in 0..=255u8 {
        let bytes = pattern(seed);
        let two = parse_u16_le(&bytes[..2]).unwrap();
        assert_eq!(two.to_le_bytes(), bytes[..2]);
        let four = parse_u32_le(&bytes[..4]).unwrap();
        assert_eq!(four.to_le_bytes(), bytes[..4]);
        let eight = parse_u64_le(&bytes).unwrap();
        assert_eq!(eight.to_le_bytes(), bytes);
    }
}

#[test]
fn encoding_then_decoding_gives_the_number_back() {
    for value in [0u64, 1, 255, 256, 65_535, 65_536, 0xdead_beef, u64::MAX - 1, u64::MAX] {
        assert_eq!(parse_u64_le(&value.to_le_bytes()), Ok(value));
        let low = value as u32;
        assert_eq!(parse_u32_le(&low.to_le_bytes()), Ok(low));
        let lower = value as u16;
        assert_eq!(parse_u16_le(&lower.to_le_bytes()), Ok(lower));
    }
}

#[test]
fn every_two_byte_field_decodes_as_the_standard_library_does() {
    for low in 0..=255u8 {
        for high in 0..=255u8 {
            assert_eq!(parse_u16_le(&[low, high]), Ok(u16::from_le_bytes([low, high])));
        }
    }
}

#[test]
fn the_bits_of_one_decode_to_the_double_one() {
    let bits = parse_u64_le(&[0x00, 0x00, 0x00, 0x00, 0x00, 0x00, 0xF0, 0x3F]).unwrap();
    assert_eq!(bits, 0x3FF0_0000_0000_0000);
    assert_eq!(f64::from_bits(bits), 1.0);
}

#[test]
fn the_bits_of_a_price_decode_to_the_price() {
    let bits = parse_u64_le(&[0, 0, 0, 0, 0, 132, 172, 64]).unwrap();
    assert_eq!(f64::from_bits(bits), 3650.0);
    assert_eq!(parse_u64_le(&3650.0f64.to_le_bytes()).map(f64::from_bits), Ok(3650.0));
}
