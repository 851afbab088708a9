use card_server::checksum::Checksum;

#[test]
fn checksum_of_empty_payload_is_zero() {
    assert_eq!(Checksum::compute(&[]), 0);
}

#[test]
fn checksum_is_the_byte_sum() {
    assert_eq!(Checksum::compute(&[1, 2, 3]), 6);
    assert_eq!(Checksum::compute(&[255, 255]), 510);
}

#[test]
fn checksum_is_deterministic() {
    let payload = [10u8, 200, 33, 7, 0, 99];
    assert_eq!(Checksum::compute(&payload), Checksum::compute(&payload));
}

#[test]
fn check_accepts_the_original_payload() {
    let payload = [4u8, 8, 15, 16, 23, 42];
    let sum = Checksum::compute(&payload);
    assert!(Checksum::check(sum, &payload));
}

#[test]
fn check_rejects_a_single_flipped_bit() {
    let payload = [4u8, 8, 15, 16, 23, 42];
    let sum = Checksum::compute(&payload);
    for i in 0..payload.len() {
        for bit in 0..8 {
            let mut mutated = payload;
            mutated[i] ^= 1 << bit;
            assert!(!Checksum::check(sum, &mutated));
        }
    }
}

#[test]
fn check_rejects_a_wrong_claim() {
    let payload = [1u8, 1, 1];
    assert!(!Checksum::check(4, &payload));
}
