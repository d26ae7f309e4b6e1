use phi_accrual_failure_detector::wide::Wide;

fn limbs(wide: Wide) -> (u128, u128) {
    (wide.high(), wide.low())
}

#[test]
fn zero_has_two_clear_limbs() {
    assert_eq!(limbs(Wide::zero()), (0, 0));
}

#[test]
fn widening_fills_the_low_limb() {
    assert_eq!(limbs(Wide::from_u128(0)), (0, 0));
    assert_eq!(limbs(Wide::from_u128(42)), (0, 42));
    assert_eq!(limbs(Wide::from_u128(u128::MAX)), (0, u128::MAX));
}

#[test]
fn squares_of_small_numbers() {
    assert_eq!(limbs(Wide::square(0)), (0, 0));
    assert_eq!(limbs(Wide::square(1)), (0, 1));
    assert_eq!(limbs(Wide::square(12)), (0, 144));
    assert_eq!(limbs(Wide::square(u64::MAX as u128)), (0, 0xffff_ffff_ffff_fffe_0000_0000_0000_0001));
}

#[test]
fn squares_that_reach_the_high_limb() {
    assert_eq!(limbs(Wide::square(1 << 64)), (1, 0));
    assert_eq!(limbs(Wide::square((1 << 64) + 1)), (1, 36893488147419103233));
    assert_eq!(limbs(Wide::square(u128::MAX)), (u128::MAX - 1, 1));
    assert_eq!(
        limbs(Wide::square(0xdead_beef_0123_4567_89ab_cdef_0f1e_2d3c)),
        (257464199061483234562850859337159547577, 28400867276397808961277347487732868624)
    );
}

#[test]
fn square_of_the_largest_sample() {
    assert_eq!(
        limbs(Wide::square(92_233_720_368_547_758_079_995)),
        (24999999, 340282366920937541126170921954187411481)
    );
}

#[test]
fn plus_carries_into_the_high_limb() {
    let sum = Wide::from_u128(u128::MAX).plus(Wide::from_u128(1));
    assert_eq!(limbs(sum), (1, 0));
    let sum = Wide::from_u128(u128::MAX).plus(Wide::from_u128(u128::MAX));
    assert_eq!(limbs(sum), (1, u128::MAX - 1));
    let sum = Wide::from_u128(5).plus(Wide::from_u128(7));
    assert_eq!(limbs(sum), (0, 12));
}

#[test]
fn plus_adds_both_limbs() {
    let a = Wide::square(u128::MAX);
    let sum = a.plus(Wide::from_u128(u128::MAX));
    // (2^128 - 1)^2 + (2^128 - 1) = (2^128 - 1) * 2^128
    assert_eq!(limbs(sum), (u128::MAX, 0));
}

#[test]
fn minus_borrows_from_the_high_limb() {
    let one_limb = Wide::from_u128(u128::MAX).plus(Wide::from_u128(1));
    assert_eq!(limbs(one_limb.minus(Wide::from_u128(1))), (0, u128::MAX));
    assert_eq!(limbs(one_limb.minus(one_limb)), (0, 0));
    assert_eq!(limbs(Wide::from_u128(12).minus(Wide::from_u128(5))), (0, 7));
}

#[test]
fn minus_undoes_plus() {
    let a = Wide::square(0xdead_beef_0123_4567_89ab_cdef_0f1e_2d3c);
    let b = Wide::square(0x1234_5678_9abc_def0_0fed_cba9_8765_4321);
    let back = a.plus(b).minus(b);
    assert_eq!(limbs(back), limbs(a));
}
