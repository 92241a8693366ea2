use securecomm_crypto::bytes::{copy_exact, decode_be_12, encode_be_12, equal_32, precedes_32};
use securecomm_crypto::nonce::{decode_nonce, encode_nonce, COUNTER_LIMIT};
use securecomm_crypto::Role;

#[test]
fn counter_limit_is_two_to_the_95() {
    assert_eq!(COUNTER_LIMIT, 1u128 << 95);
}

#[test]
fn first_role_counts_from_zero() {
    assert_eq!(encode_nonce(Role::First, 0), [0u8; 12]);
    assert_eq!(encode_nonce(Role::First, 1), [0, 0, 0, 0, 0, 0, 0, 0, 0, 0, 0, 1]);
    assert_eq!(encode_nonce(Role::First, 256), [0, 0, 0, 0, 0, 0, 0, 0, 0, 0, 1, 0]);
    assert_eq!(
        encode_nonce(Role::First, 0x0102_0304_0506_0708_090a_0b0c),
        [1, 2, 3, 4, 5, 6, 7, 8, 9, 10, 11, 12]
    );
    assert_eq!(
        encode_nonce(Role::First, COUNTER_LIMIT - 1),
        [0x7f, 255, 255, 255, 255, 255, 255, 255, 255, 255, 255, 255]
    );
}

#[test]
fn second_role_counts_from_the_top_bit() {
    assert_eq!(encode_nonce(Role::Second, 0), [0x80, 0, 0, 0, 0, 0, 0, 0, 0, 0, 0, 0]);
    assert_eq!(encode_nonce(Role::Second, 1), [0x80, 0, 0, 0, 0, 0, 0, 0, 0, 0, 0, 1]);
    assert_eq!(encode_nonce(Role::Second, COUNTER_LIMIT - 1), [255u8; 12]);
}

#[test]
fn decode_undoes_encode() {
    let counters = [0u128, 1, 255, 256, 65535, 1 << 64, (1 << 64) + 7, COUNTER_LIMIT - 1];
    for role in [Role::First, Role::Second] {
        for counter in counters {
            assert_eq!(decode_nonce(&encode_nonce(role, counter)), (role, counter));
        }
    }
}

#[test]
fn decode_reads_sender_and_counter() {
    assert_eq!(decode_nonce(&[0u8; 12]), (Role::First, 0));
    assert_eq!(decode_nonce(&[0x80, 0, 0, 0, 0, 0, 0, 0, 0, 0, 0, 5]), (Role::Second, 5));
    assert_eq!(decode_nonce(&[0x7f, 0, 0, 0, 0, 0, 0, 0, 0, 0, 0, 5]), (Role::First, (0x7f << 88) + 5));
    assert_eq!(decode_nonce(&[255u8; 12]), (Role::Second, COUNTER_LIMIT - 1));
}

#[test]
fn roles_are_each_other_s_peer() {
    assert_eq!(Role::First.peer(), Role::Second);
    assert_eq!(Role::Second.peer(), Role::First);
}

#[test]
fn big_endian_codec_is_exact() {
    assert_eq!(encode_be_12(0), [0u8; 12]);
    assert_eq!(encode_be_12(0x0102), [0, 0, 0, 0, 0, 0, 0, 0, 0, 0, 1, 2]);
    assert_eq!(encode_be_12((1u128 << 96) - 1), [255u8; 12]);
    assert_eq!(decode_be_12(&[0, 0, 0, 0, 0, 0, 0, 0, 0, 0, 1, 2]), 0x0102);
    assert_eq!(decode_be_12(&[255u8; 12]), (1u128 << 96) - 1);
    assert_eq!(decode_be_12(&[1, 0, 0, 0, 0, 0, 0, 0, 0, 0, 0, 0]), 1u128 << 88);
}

#[test]
fn byte_strings_are_ordered_from_the_front() {
    let low = [0u8; 32];
    let mut mid = [0u8; 32];
    mid[31] = 1;
    let mut high = [0u8; 32];
    high[0] = 1;
    assert!(precedes_32(&low, &mid));
    assert!(precedes_32(&mid, &high));
    assert!(precedes_32(&low, &high));
    assert!(!precedes_32(&mid, &low));
    assert!(!precedes_32(&high, &mid));
    assert!(!precedes_32(&mid, &mid));
    let mut mixed = [0xffu8; 32];
    mixed[0] = 0;
    assert!(precedes_32(&mixed, &high));
    assert!(equal_32(&mid, &mid));
    assert!(!equal_32(&mid, &low));
    assert!(!equal_32(&high, &low));
}

#[test]
fn copy_exact_takes_only_the_exact_length() {
    assert_eq!(copy_exact::<4>(&[1, 2, 3, 4]), Some([1, 2, 3, 4]));
    assert_eq!(copy_exact::<4>(&[1, 2, 3]), None);
    assert_eq!(copy_exact::<4>(&[1, 2, 3, 4, 5]), None);
    assert_eq!(copy_exact::<0>(&[]), Some([]));
}
