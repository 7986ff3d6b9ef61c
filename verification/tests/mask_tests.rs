use backend::mask::{check_tenant_bit, is_visible, next_bit, MaskError, MAX_TENANT_BIT};

#[test]
fn first_bit_is_one() {
    assert_eq!(next_bit(0), Ok(1));
}

#[test]
fn next_bit_doubles_the_maximum() {
    assert_eq!(next_bit(1), Ok(2));
    assert_eq!(next_bit(2), Ok(4));
    assert_eq!(next_bit(4), Ok(8));
    assert_eq!(next_bit(0x2000_0000), Ok(0x4000_0000));
}

#[test]
fn next_bit_after_one_two_four_is_eight() {
    let in_use = [1, 2, 4];
    let max = in_use.iter().copied().max().unwrap_or(0);
    assert_eq!(next_bit(max), Ok(8));
}

#[test]
fn next_bit_fails_when_the_mask_is_full() {
    assert_eq!(MAX_TENANT_BIT, 1 << 30);
    assert_eq!(next_bit(MAX_TENANT_BIT), Err(MaskError::Exhausted));
    assert_eq!(next_bit(i32::MAX), Err(MaskError::Exhausted));
}

#[test]
fn next_bit_refuses_a_wrapped_maximum() {
    assert_eq!(next_bit(i32::MIN), Err(MaskError::Exhausted));
    assert_eq!(next_bit(-1), Err(MaskError::Exhausted));
}

#[test]
fn thirty_one_bits_can_be_allocated_in_a_row() {
    let mut max = 0;
    let mut seen = Vec::new();
    for _ in 0..31 {
        let bit = next_bit(max).unwrap();
        assert!(bit > max);
        assert!(check_tenant_bit(bit));
        assert!(!seen.contains(&bit));
        seen.push(bit);
        max = bit;
    }
    assert_eq!(max, MAX_TENANT_BIT);
    assert_eq!(next_bit(max), Err(MaskError::Exhausted));
}

#[test]
fn visibility_is_a_shared_bit() {
    assert!(is_visible(1, 1));
    assert!(!is_visible(2, 1));
    assert!(is_visible(2, 3));
    assert!(is_visible(4, 7));
    assert!(!is_visible(8, 7));
    assert!(is_visible(3, 2));
}

#[test]
fn empty_mask_is_visible_to_nobody() {
    let mut bit = 1;
    for _ in 0..31 {
        assert!(!is_visible(bit, 0));
        bit = bit.wrapping_shl(1);
    }
    assert!(!is_visible(-1, 0));
    assert!(!is_visible(i32::MIN, 0));
}

#[test]
fn visibility_of_the_sign_bit_follows_the_mask() {
    assert!(is_visible(i32::MIN, -1));
    assert!(is_visible(1, -1));
}

#[test]
fn content_of_tenant_a_is_hidden_from_tenant_b() {
    let tenant_a = 1;
    let tenant_b = 2;
    let content_mask = 1;
    assert!(!is_visible(tenant_b, content_mask));
    assert!(is_visible(tenant_a, content_mask));
}

#[test]
fn tenant_bits_are_the_powers_of_two_up_to_bit_thirty() {
    assert!(check_tenant_bit(1));
    assert!(check_tenant_bit(2));
    assert!(check_tenant_bit(1 << 30));
    assert!(!check_tenant_bit(0));
    assert!(!check_tenant_bit(3));
    assert!(!check_tenant_bit(6));
    assert!(!check_tenant_bit(-2));
    assert!(!check_tenant_bit(i32::MIN));
    assert!(!check_tenant_bit(i32::MAX));
}
