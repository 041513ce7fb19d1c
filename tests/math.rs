use dynamic_fee_sharing::math::{mul_shr, shl_div};

#[test]
fn shl_div_exact_quotient() {
    assert_eq!(shl_div(4000, 4, 52), Some(1000u128 << 52));
    assert_eq!(shl_div(1, 1, 0), Some(1));
    assert_eq!(shl_div(7, 2, 1), Some(7));
}

#[test]
fn shl_div_floors() {
    let exact_times_three = 10u128 << 52;
    let q = shl_div(10, 3, 52).unwrap();
    assert_eq!(q, exact_times_three / 3);
    assert!(q * 3 < exact_times_three);
}

#[test]
fn shl_div_zero_divisor_fails() {
    assert_eq!(shl_div(10, 0, 52), None);
    assert_eq!(shl_div(0, 0, 0), None);
}

#[test]
fn shl_div_shift_that_loses_bits_fails() {
    assert_eq!(shl_div(u64::MAX, 1, 64), Some((u64::MAX as u128) << 64));
    assert_eq!(shl_div(u64::MAX, 1, 65), None);
    assert_eq!(shl_div(1, 1, 128), None);
    assert_eq!(shl_div(0, 5, 200), Some(0));
}

#[test]
fn mul_shr_exact_values() {
    assert_eq!(mul_shr(3, 1000u128 << 52, 52), Some(3000));
    assert_eq!(mul_shr(1, 7, 1), Some(3));
    assert_eq!(mul_shr(0, u128::MAX, 0), Some(0));
}

#[test]
fn mul_shr_uses_the_full_product() {
    // The product needs 200 bits; the shifted result fits again.
    assert_eq!(mul_shr(1u128 << 100, 1u128 << 100, 100), Some(1u128 << 100));
    assert_eq!(mul_shr(u128::MAX, 2, 1), Some(u128::MAX));
}

#[test]
fn mul_shr_too_wide_result_fails() {
    assert_eq!(mul_shr(u128::MAX, u128::MAX, 0), None);
    assert_eq!(mul_shr(u128::MAX, 2, 0), None);
}
