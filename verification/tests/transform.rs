//! Tests of the byte transforms: checksum and obfuscation.

use et312b::utils::{checksum, encrypt};

#[test]
fn test_checksum() {
    assert_eq!(checksum(&[0]), 0);
    assert_eq!(checksum(&[1]), 1);
    assert_eq!(checksum(&[255]), 255);

    assert_eq!(checksum(&[0, 0]), 0);
    assert_eq!(checksum(&[0, 1]), 1);
    assert_eq!(checksum(&[1, 0]), 1);
    assert_eq!(checksum(&[1, 1]), 2);
    assert_eq!(checksum(&[255, 1]), 0);
    assert_eq!(checksum(&[255, 255]), 254);

    assert_eq!(checksum(&[255, 255, 1]), 255);
    assert_eq!(checksum(&[255, 255, 2]), 0);
}

#[test]
fn test_encrypt() {
    assert_eq!(encrypt(&[1, 2, 3], 0), [1, 2, 3]);
    assert_eq!(encrypt(&[1, 2, 3], 1), [0, 3, 2]);
    assert_eq!(encrypt(&[1, 2, 3], 0xf0), [0xf1, 0xf2, 0xf3]);
}

#[test]
fn checksum_of_empty_payload_is_zero() {
    assert_eq!(checksum(&[]), 0);
}

#[test]
fn checksum_of_concatenation_is_wrapping_sum() {
    let a: [u8; 3] = [0x10, 0xf0, 0x07];
    let b: [u8; 2] = [0xfe, 0x03];
    let mut joined: Vec<u8> = a.to_vec();
    joined.extend_from_slice(&b);
    assert_eq!(checksum(&joined), checksum(&a).wrapping_add(checksum(&b)));
    // An exact value as well: 0x10 + 0xf0 + 0x07 + 0xfe + 0x03 = 0x208.
    assert_eq!(checksum(&joined), 0x08);
}

#[test]
fn encrypt_twice_with_same_key_restores_bytes() {
    let data: [u8; 5] = [0x00, 0x7f, 0x80, 0xff, 0x2a];
    let once = encrypt(&data, 0x5a);
    let twice = encrypt(&once, 0x5a);
    assert_eq!(twice, data);
    assert_ne!(once, data.to_vec());
}

#[test]
fn encrypt_with_zero_key_is_identity() {
    let data: [u8; 4] = [0x00, 0x01, 0xfe, 0xff];
    assert_eq!(encrypt(&data, 0), data);
}
