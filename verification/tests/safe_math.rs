use zap::error::ProtocolZapError;
use zap::safe_math::{SafeCast, SafeMath};
use zap::wide::{U192, U256, U512};

#[test]
fn safe_math_safe_add() {
    assert_eq!(u64::MAX.safe_add(u64::MAX).is_err(), true);
    assert_eq!(100u64.safe_add(100u64).is_ok(), true);
    assert_eq!(100u64.safe_add(100u64).unwrap(), 200u64);
}

#[test]
fn safe_math_safe_sub() {
    assert_eq!(0u64.safe_sub(u64::MAX).is_err(), true);
    assert_eq!(200u64.safe_sub(100u64).is_ok(), true);
    assert_eq!(200u64.safe_sub(100u64).unwrap(), 100u64);
}

#[test]
fn safe_math_safe_mul() {
    assert_eq!(u64::MAX.safe_mul(u64::MAX).is_err(), true);
    assert_eq!(100u64.safe_mul(100u64).is_ok(), true);
    assert_eq!(100u64.safe_mul(100u64).unwrap(), 10000u64);
}

#[test]
fn safe_math_safe_div() {
    assert_eq!(100u64.safe_div(0u64).is_err(), true);
    assert_eq!(200u64.safe_div(100u64).is_ok(), true);
    assert_eq!(200u64.safe_div(100u64), Ok(2u64));
}

#[test]
fn safe_shl() {
    assert_eq!(1u128.safe_shl(8).is_ok(), true);
    assert_eq!(100u128.safe_shl(128).is_err(), true);
    assert_eq!(100u128.safe_shl(8), Ok(25600))
}

#[test]
fn safe_shr() {
    assert_eq!(100u128.safe_shr(1).is_ok(), true);
    assert_eq!(200u128.safe_shr(129).is_err(), true);
    assert_eq!(200u128.safe_shr(1), Ok(100))
}

#[test]
fn safe_math_tests_safe_add() {
    assert_eq!(u64::MAX.safe_add(u64::MAX).is_err(), true);
    assert_eq!(100u64.safe_add(100u64).is_ok(), true);
    assert_eq!(100u64.safe_add(100u64).unwrap(), 200u64);
}

#[test]
fn safe_math_tests_safe_sub() {
    assert_eq!(0u64.safe_sub(u64::MAX).is_err(), true);
    assert_eq!(200u64.safe_sub(100u64).is_ok(), true);
    assert_eq!(200u64.safe_sub(100u64).unwrap(), 100u64);
}

#[test]
fn safe_math_tests_safe_mul() {
    assert_eq!(u64::MAX.safe_mul(u64::MAX).is_err(), true);
    assert_eq!(100u64.safe_mul(100u64).is_ok(), true);
    assert_eq!(100u64.safe_mul(100u64).unwrap(), 10000u64);
}

#[test]
fn safe_math_tests_safe_div() {
    assert_eq!(100u64.safe_div(0u64).is_err(), true);
    assert_eq!(200u64.safe_div(100u64).is_ok(), true);
    assert_eq!(200u64.safe_div(100u64), Ok(2u64));
}

#[test]
fn checked_errors_are_math_overflow() {
    assert_eq!(u16::MAX.safe_add(1), Err(ProtocolZapError::MathOverflow));
    assert_eq!(i32::MIN.safe_sub(1), Err(ProtocolZapError::MathOverflow));
    assert_eq!(u32::MAX.safe_mul(2), Err(ProtocolZapError::MathOverflow));
    assert_eq!(7usize.safe_rem(0), Err(ProtocolZapError::MathOverflow));
    assert_eq!(i64::MIN.safe_div(-1), Err(ProtocolZapError::MathOverflow));
    assert_eq!(i128::MIN.safe_rem(-1), Err(ProtocolZapError::MathOverflow));
}

#[test]
fn signed_division_rounds_toward_zero() {
    assert_eq!((-7i32).safe_div(2), Ok(-3));
    assert_eq!((-7i32).safe_rem(2), Ok(-1));
    assert_eq!(7i64.safe_div(-2), Ok(-3));
    assert_eq!(7i64.safe_rem(-2), Ok(1));
    assert_eq!((-7i128).safe_div(-2), Ok(3));
    assert_eq!((-7i128).safe_rem(-2), Ok(-1));
}

#[test]
fn primitive_shift_drops_bits_shifted_out() {
    assert_eq!(u64::MAX.safe_shl(63), Ok(1u64 << 63));
    assert_eq!(3u16.safe_shl(15), Ok(0x8000));
    assert_eq!(1u32.safe_shl(32), Err(ProtocolZapError::MathOverflow));
    assert_eq!((-8i32).safe_shr(1), Ok(-4));
    assert_eq!(5usize.safe_shr(1), Ok(2));
}

#[test]
fn safe_cast_narrows_only_what_fits() {
    let ok: Result<u16, ProtocolZapError> = 65535usize.safe_cast();
    assert_eq!(ok, Ok(65535u16));
    let err: Result<u16, ProtocolZapError> = 65536usize.safe_cast();
    assert_eq!(err, Err(ProtocolZapError::TypeCastFailed));
}

#[test]
fn wide_round_trip_and_arithmetic() {
    let a = U256::from_u128(u128::MAX);
    let b = U256::from_u64(2);
    let p = a.safe_mul(b).unwrap();
    assert_eq!(p.to_u128(), None);
    assert_eq!(p.limbs, [u64::MAX - 1, u64::MAX, 1, 0]);
    let q = p.safe_div(b).unwrap();
    assert_eq!(q.to_u128(), Some(u128::MAX));
    assert_eq!(a.safe_sub(a).unwrap().is_zero(), true);
    assert_eq!(b.safe_sub(a).is_err(), true);
    assert_eq!(a.safe_div(U256::from_u64(0)).is_err(), true);
    assert_eq!(a.safe_rem(U256::from_u64(10)).unwrap().to_u128(), Some(u128::MAX % 10));
    assert_eq!(p.gt(&a), true);
    assert_eq!(a.gt(&p), false);
}

#[test]
fn wide_shift_fails_when_bits_are_lost() {
    let one = U256::from_u64(1);
    assert_eq!(one.safe_shl(255).is_ok(), true);
    assert_eq!(one.safe_shl(256).is_err(), true);
    assert_eq!(U256::from_u64(0).safe_shl(300).unwrap().is_zero(), true);
    assert_eq!(U256::from_u64(6).safe_shr(1).unwrap().to_u128(), Some(3));
    assert_eq!(U256::from_u64(7).safe_shr(1).is_err(), true);
    assert_eq!(U192::from_u64(3).safe_shl(190).is_ok(), true);
    assert_eq!(U192::from_u64(3).safe_shl(191).is_err(), true);
    assert_eq!(U512::from_u128(u128::MAX).safe_shl(384).is_ok(), true);
    assert_eq!(U512::from_u128(u128::MAX).safe_shl(385).is_err(), true);
}

#[test]
fn wide_div_ceil_rounds_up() {
    let seven = U192::from_u64(7);
    let two = U192::from_u64(2);
    assert_eq!(seven.div_ceil(&two).to_u128(), Some(4));
    assert_eq!(U192::from_u64(8).div_ceil(&two).to_u128(), Some(4));
    assert_eq!(U192::from_u64(0).div_ceil(&two).to_u128(), Some(0));
}
