use dydx_cosmwasm::bytes_helper::bytes_to_bigint;
use num_bigint::BigInt;

#[test]
fn test_bytes_to_bigint() {
    let test_cases = vec![
        (BigInt::from(0), vec![0x02]),
        (BigInt::from(0), vec![0x02]), // -0 is same as 0
        (BigInt::from(1), vec![0x02, 0x01]),
        (BigInt::from(-1), vec![0x03, 0x01]),
        (BigInt::from(255), vec![0x02, 0xFF]),
        (BigInt::from(-255), vec![0x03, 0xFF]),
        (BigInt::from(256), vec![0x02, 0x01, 0x00]),
        (BigInt::from(-256), vec![0x03, 0x01, 0x00]),
        (BigInt::from(123456789), vec![0x02, 0x07, 0x5b, 0xcd, 0x15]),
        (BigInt::from(-123456789), vec![0x03, 0x07, 0x5b, 0xcd, 0x15]),
        (BigInt::from(123456789123456789i64), vec![0x02, 0x01, 0xb6, 0x9b, 0x4b, 0xac, 0xd0, 0x5f, 0x15]),
        (BigInt::from(-123456789123456789i64), vec![0x03, 0x01, 0xb6, 0x9b, 0x4b, 0xac, 0xd0, 0x5f, 0x15]),
        (BigInt::parse_bytes(b"123456789123456789123456789", 10).unwrap(), vec![0x02, 0x66, 0x1e, 0xfd, 0xf2, 0xe3, 0xb1, 0x9f, 0x7c, 0x04, 0x5f, 0x15]),
        (BigInt::parse_bytes(b"-123456789123456789123456789", 10).unwrap(), vec![0x03, 0x66, 0x1e, 0xfd, 0xf2, 0xe3, 0xb1, 0x9f, 0x7c, 0x04, 0x5f, 0x15]),
    ];

    for (expected, bytes) in test_cases {
        assert_eq!(bytes_to_bigint(bytes), expected);
    }
}

#[test]
fn empty_input_is_zero() {
    assert_eq!(bytes_to_bigint(vec![]), BigInt::from(0));
}

#[test]
fn every_single_byte_is_zero() {
    for b in 0..=255u8 {
        assert_eq!(bytes_to_bigint(vec![b]), BigInt::from(0));
    }
}

#[test]
fn two_bytes_with_either_sign() {
    assert_eq!(bytes_to_bigint(vec![0x02, 0x01]), BigInt::from(1));
    assert_eq!(bytes_to_bigint(vec![0x03, 0x01]), BigInt::from(-1));
    assert_eq!(bytes_to_bigint(vec![0x02, 0xFF]), BigInt::from(255));
    assert_eq!(bytes_to_bigint(vec![0x03, 0xFF]), BigInt::from(-255));
}

#[test]
fn magnitude_is_big_endian() {
    assert_eq!(bytes_to_bigint(vec![0x02, 0x01, 0x00]), BigInt::from(256));
    assert_eq!(bytes_to_bigint(vec![0x03, 0x01, 0x00]), BigInt::from(-256));
    assert_eq!(bytes_to_bigint(vec![0x02, 0x00, 0x01]), BigInt::from(1));
}

#[test]
fn only_the_lowest_bit_of_the_first_byte_counts() {
    assert_eq!(bytes_to_bigint(vec![0x00, 0x07]), BigInt::from(7));
    assert_eq!(bytes_to_bigint(vec![0xFE, 0x07]), BigInt::from(7));
    assert_eq!(bytes_to_bigint(vec![0x01, 0x07]), BigInt::from(-7));
    assert_eq!(bytes_to_bigint(vec![0xFF, 0x07]), BigInt::from(-7));
}

#[test]
fn negative_zero_is_zero() {
    assert_eq!(bytes_to_bigint(vec![0x03, 0x00]), BigInt::from(0));
    assert_eq!(bytes_to_bigint(vec![0x03, 0x00, 0x00, 0x00]), BigInt::from(0));
}

#[test]
fn magnitudes_beyond_machine_width() {
    let bytes = vec![0x02, 0x66, 0x1e, 0xfd, 0xf2, 0xe3, 0xb1, 0x9f, 0x7c, 0x04, 0x5f, 0x15];
    let expected = BigInt::parse_bytes(b"123456789123456789123456789", 10).unwrap();
    assert_eq!(bytes_to_bigint(bytes.clone()), expected);
    let mut negative = bytes;
    negative[0] = 0x03;
    assert_eq!(bytes_to_bigint(negative), -expected);
}

#[test]
fn equal_values_decode_to_equal_integers() {
    let a = bytes_to_bigint(vec![0x02, 0x00, 0x00, 0x2A]);
    let b = bytes_to_bigint(vec![0x04, 0x2A]);
    assert_eq!(a, b);
    assert_eq!(a.to_bytes_be(), b.to_bytes_be());
}

fn positional_value(bytes: &[u8]) -> BigInt {
    let mut value = BigInt::from(0);
    for b in bytes {
        value = value * 256 + BigInt::from(*b);
    }
    value
}

#[test]
fn decode_agrees_with_the_positional_value() {
    let mut state: u64 = 0x2545F4914F6CDD1D;
    for round in 0..2000usize {
        let len = round % 40;
        let mut bytes = Vec::with_capacity(len);
        for _ in 0..len {
            state ^= state << 13;
            state ^= state >> 7;
            state ^= state << 17;
            bytes.push((state >> 32) as u8);
        }
        let expected = if bytes.len() <= 1 {
            BigInt::from(0)
        } else if bytes[0] & 1 == 1 {
            -positional_value(&bytes[1..])
        } else {
            positional_value(&bytes[1..])
        };
        assert_eq!(bytes_to_bigint(bytes), expected);
    }
}
