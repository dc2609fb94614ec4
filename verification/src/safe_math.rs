//! Checked arithmetic: every operation either yields the exact result or
//! fails with `MathOverflow`; a narrowing cast that does not fit fails with
//! `TypeCastFailed`. Nothing wraps and nothing panics.

use vstd::prelude::*;
use crate::error::ProtocolZapError;
use crate::wide::{
    two_pow, uint_checked_add, uint_checked_div, uint_checked_mul, uint_checked_rem,
    uint_checked_shl, uint_checked_shr, uint_checked_sub, U192, U256, U512,
};

verus! {

/// The quotient of `x` by `d` rounded toward zero, as the machine's division
/// of signed integers gives it. `d` is not zero.
pub open spec fn trunc_div(x: int, d: int) -> int {
    if x == 0 {
        0
    } else if x > 0 && d > 0 {
        x / d
    } else if x < 0 && d < 0 {
        (x * -1) / (d * -1)
    } else if x < 0 {
        ((x * -1) / d) * -1
    } else {
        (x / (d * -1)) * -1
    }
}

/// The remainder that goes with `trunc_div`; it has the sign of `x`.
pub open spec fn trunc_rem(x: int, d: int) -> int {
    if x == 0 {
        0
    } else if x > 0 && d > 0 {
        x % d
    } else if x < 0 && d < 0 {
        ((x * -1) % (d * -1)) * -1
    } else if x < 0 {
        ((x * -1) % d) * -1
    } else {
        x % (d * -1)
    }
}

/// On operands that are not negative, rounding toward zero is rounding down.
pub proof fn lemma_trunc_nonnegative(x: int, d: int)
    requires
        x >= 0,
        d > 0,
    ensures
        trunc_div(x, d) == x / d,
        trunc_rem(x, d) == x % d,
        0 <= x / d <= x,
        0 <= x % d < d,
{
    assert(0 <= x / d <= x && 0 <= x % d < d && (x == 0 ==> x / d == 0 && x % d == 0))
        by (nonlinear_arith)
        requires
            x >= 0,
            d > 0,
    ;
}

/// The quotient of two integers of a signed type fits the type, but for the
/// least value divided by minus one, which is one more than the greatest.
pub proof fn lemma_trunc_div_range(x: int, d: int, hi: int)
    requires
        hi >= 1,
        -hi - 1 <= x <= hi,
        d != 0,
    ensures
        (x == -hi - 1 && d == -1) ==> trunc_div(x, d) == hi + 1,
        !(x == -hi - 1 && d == -1) ==> -hi - 1 <= trunc_div(x, d) <= hi,
{
    let a = if x < 0 { x * -1 } else { x };
    let b = if d < 0 { d * -1 } else { d };
    assert(0 <= a / b <= a && b * (a / b) <= a && (b == 1 ==> a / b == a)) by (nonlinear_arith)
        requires
            a >= 0,
            b >= 1,
    ;
    if b >= 2 {
        assert(2 * (a / b) <= b * (a / b)) by (nonlinear_arith)
            requires
                b >= 2,
                a / b >= 0,
        ;
    }
}

/// Checked arithmetic on a fixed-width integer whose shift amounts have type `T`.
///
/// The contracts speak of the mathematical value of each operand: the result
/// of an operation is `Ok` exactly when the exact outcome lies between
/// `lowest()` and `highest()`, and then it holds that outcome.
pub trait SafeMath<T>: Sized {
    /// The integer that `self` stands for.
    spec fn value(self) -> int;

    /// The least integer the type can hold.
    spec fn lowest() -> int;

    /// The greatest integer the type can hold.
    spec fn highest() -> int;

    /// The value of `self` shifted left by `offset`, where the type defines it.
    spec fn shl_spec(self, offset: T) -> Option<int>;

    /// The value of `self` shifted right by `offset`, where the type defines it.
    spec fn shr_spec(self, offset: T) -> Option<int>;

    /// Adds; fails where the sum does not fit.
    fn safe_add(self, rhs: Self) -> (r: Result<Self, ProtocolZapError>)
        ensures
            match r {
                Ok(v) => v.value() == self.value() + rhs.value(),
                Err(e) => e == ProtocolZapError::MathOverflow,
            },
            r.is_ok() <==> Self::lowest() <= self.value() + rhs.value() <= Self::highest(),
    ;

    /// Multiplies; fails where the product does not fit.
    fn safe_mul(self, rhs: Self) -> (r: Result<Self, ProtocolZapError>)
        ensures
            match r {
                Ok(v) => v.value() == self.value() * rhs.value(),
                Err(e) => e == ProtocolZapError::MathOverflow,
            },
            r.is_ok() <==> Self::lowest() <= self.value() * rhs.value() <= Self::highest(),
    ;

    /// Divides, rounding toward zero; fails on a zero divisor and where the
    /// quotient does not fit.
    fn safe_div(self, rhs: Self) -> (r: Result<Self, ProtocolZapError>)
        ensures
            match r {
                Ok(v) => v.value() == trunc_div(self.value(), rhs.value()),
                Err(e) => e == ProtocolZapError::MathOverflow,
            },
            r.is_ok() <==> rhs.value() != 0 && Self::lowest() <= trunc_div(
                self.value(),
                rhs.value(),
            ) <= Self::highest(),
    ;

    /// Takes the remainder of the division rounded toward zero; fails where
    /// `safe_div` fails.
    fn safe_rem(self, rhs: Self) -> (r: Result<Self, ProtocolZapError>)
        ensures
            match r {
                Ok(v) => v.value() == trunc_rem(self.value(), rhs.value()),
                Err(e) => e == ProtocolZapError::MathOverflow,
            },
            r.is_ok() <==> rhs.value() != 0 && Self::lowest() <= trunc_div(
                self.value(),
                rhs.value(),
            ) <= Self::highest(),
    ;

    /// Subtracts; fails where the difference does not fit.
    fn safe_sub(self, rhs: Self) -> (r: Result<Self, ProtocolZapError>)
        ensures
            match r {
                Ok(v) => v.value() == self.value() - rhs.value(),
                Err(e) => e == ProtocolZapError::MathOverflow,
            },
            r.is_ok() <==> Self::lowest() <= self.value() - rhs.value() <= Self::highest(),
    ;

    /// Shifts left; fails where the type does not define the shift.
    fn safe_shl(self, offset: T) -> (r: Result<Self, ProtocolZapError>)
        ensures
            match r {
                Ok(v) => self.shl_spec(offset) == Some(v.value()),
                Err(e) => e == ProtocolZapError::MathOverflow && self.shl_spec(offset).is_none(),
            },
    ;

    /// Shifts right; fails where the type does not define the shift.
    fn safe_shr(self, offset: T) -> (r: Result<Self, ProtocolZapError>)
        ensures
            match r {
                Ok(v) => self.shr_spec(offset) == Some(v.value()),
                Err(e) => e == ProtocolZapError::MathOverflow && self.shr_spec(offset).is_none(),
            },
    ;
}

impl SafeMath<u32> for u16 {
    open spec fn value(self) -> int {
        self as int
    }

    open spec fn lowest() -> int {
        u16::MIN as int
    }

    open spec fn highest() -> int {
        u16::MAX as int
    }

    /// Defined for an offset below the width; bits shifted out are dropped.
    open spec fn shl_spec(self, offset: u32) -> Option<int> {
        if offset < 16 {
            Some((self << offset) as int)
        } else {
            None
        }
    }

    /// Defined for an offset below the width.
    open spec fn shr_spec(self, offset: u32) -> Option<int> {
        if offset < 16 {
            Some((self >> offset) as int)
        } else {
            None
        }
    }

    fn safe_add(self, rhs: u16) -> (r: Result<u16, ProtocolZapError>) {
        match self.checked_add(rhs) {
            Some(result) => Ok(result),
            None => Err(ProtocolZapError::MathOverflow),
        }
    }

    fn safe_mul(self, rhs: u16) -> (r: Result<u16, ProtocolZapError>) {
        match self.checked_mul(rhs) {
            Some(result) => Ok(result),
            None => Err(ProtocolZapError::MathOverflow),
        }
    }

    fn safe_div(self, rhs: u16) -> (r: Result<u16, ProtocolZapError>) {
        proof {
            if rhs != 0 {
                lemma_trunc_nonnegative(self as int, rhs as int);
            }
        }
        match self.checked_div(rhs) {
            Some(result) => Ok(result),
            None => Err(ProtocolZapError::MathOverflow),
        }
    }

    fn safe_rem(self, rhs: u16) -> (r: Result<u16, ProtocolZapError>) {
        proof {
            if rhs != 0 {
                lemma_trunc_nonnegative(self as int, rhs as int);
            }
        }
        match self.checked_rem(rhs) {
            Some(result) => Ok(result),
            None => Err(ProtocolZapError::MathOverflow),
        }
    }

    fn safe_sub(self, rhs: u16) -> (r: Result<u16, ProtocolZapError>) {
        match self.checked_sub(rhs) {
            Some(result) => Ok(result),
            None => Err(ProtocolZapError::MathOverflow),
        }
    }

    fn safe_shl(self, offset: u32) -> (r: Result<u16, ProtocolZapError>) {
        if offset < 16 {
            Ok(self << offset)
        } else {
            Err(ProtocolZapError::MathOverflow)
        }
    }

    fn safe_shr(self, offset: u32) -> (r: Result<u16, ProtocolZapError>) {
        if offset < 16 {
            Ok(self >> offset)
        } else {
            Err(ProtocolZapError::MathOverflow)
        }
    }
}

impl SafeMath<u32> for i32 {
    open spec fn value(self) -> int {
        self as int
    }

    open spec fn lowest() -> int {
        i32::MIN as int
    }

    open spec fn highest() -> int {
        i32::MAX as int
    }

    /// Defined for an offset below the width; bits shifted out are dropped.
    open spec fn shl_spec(self, offset: u32) -> Option<int> {
        if offset < 32 {
            Some((self << offset) as int)
        } else {
            None
        }
    }

    /// Defined for an offset below the width.
    open spec fn shr_spec(self, offset: u32) -> Option<int> {
        if offset < 32 {
            Some((self >> offset) as int)
        } else {
            None
        }
    }

    fn safe_add(self, rhs: i32) -> (r: Result<i32, ProtocolZapError>) {
        match self.checked_add(rhs) {
            Some(result) => Ok(result),
            None => Err(ProtocolZapError::MathOverflow),
        }
    }

    fn safe_mul(self, rhs: i32) -> (r: Result<i32, ProtocolZapError>) {
        match self.checked_mul(rhs) {
            Some(result) => Ok(result),
            None => Err(ProtocolZapError::MathOverflow),
        }
    }

    fn safe_div(self, rhs: i32) -> (r: Result<i32, ProtocolZapError>) {
        proof {
            if rhs != 0 {
                lemma_trunc_div_range(self as int, rhs as int, i32::MAX as int);
            }
        }
        match self.checked_div(rhs) {
            Some(result) => Ok(result),
            None => Err(ProtocolZapError::MathOverflow),
        }
    }

    fn safe_rem(self, rhs: i32) -> (r: Result<i32, ProtocolZapError>) {
        proof {
            if rhs != 0 {
                lemma_trunc_div_range(self as int, rhs as int, i32::MAX as int);
            }
        }
        match self.checked_rem(rhs) {
            Some(result) => Ok(result),
            None => Err(ProtocolZapError::MathOverflow),
        }
    }

    fn safe_sub(self, rhs: i32) -> (r: Result<i32, ProtocolZapError>) {
        match self.checked_sub(rhs) {
            Some(result) => Ok(result),
            None => Err(ProtocolZapError::MathOverflow),
        }
    }

    fn safe_shl(self, offset: u32) -> (r: Result<i32, ProtocolZapError>) {
        if offset < 32 {
            Ok(self << offset)
        } else {
            Err(ProtocolZapError::MathOverflow)
        }
    }

    fn safe_shr(self, offset: u32) -> (r: Result<i32, ProtocolZapError>) {
        if offset < 32 {
            Ok(self >> offset)
        } else {
            Err(ProtocolZapError::MathOverflow)
        }
    }
}

impl SafeMath<u32> for u32 {
    open spec fn value(self) -> int {
        self as int
    }

    open spec fn lowest() -> int {
        u32::MIN as int
    }

    open spec fn highest() -> int {
        u32::MAX as int
    }

    /// Defined for an offset below the width; bits shifted out are dropped.
    open spec fn shl_spec(self, offset: u32) -> Option<int> {
        if offset < 32 {
            Some((self << offset) as int)
        } else {
            None
        }
    }

    /// Defined for an offset below the width.
    open spec fn shr_spec(self, offset: u32) -> Option<int> {
        if offset < 32 {
            Some((self >> offset) as int)
        } else {
            None
        }
    }

    fn safe_add(self, rhs: u32) -> (r: Result<u32, ProtocolZapError>) {
        match self.checked_add(rhs) {
            Some(result) => Ok(result),
            None => Err(ProtocolZapError::MathOverflow),
        }
    }

    fn safe_mul(self, rhs: u32) -> (r: Result<u32, ProtocolZapError>) {
        match self.checked_mul(rhs) {
            Some(result) => Ok(result),
            None => Err(ProtocolZapError::MathOverflow),
        }
    }

    fn safe_div(self, rhs: u32) -> (r: Result<u32, ProtocolZapError>) {
        proof {
            if rhs != 0 {
                lemma_trunc_nonnegative(self as int, rhs as int);
            }
        }
        match self.checked_div(rhs) {
            Some(result) => Ok(result),
            None => Err(ProtocolZapError::MathOverflow),
        }
    }

    fn safe_rem(self, rhs: u32) -> (r: Result<u32, ProtocolZapError>) {
        proof {
            if rhs != 0 {
                lemma_trunc_nonnegative(self as int, rhs as int);
            }
        }
        match self.checked_rem(rhs) {
            Some(result) => Ok(result),
            None => Err(ProtocolZapError::MathOverflow),
        }
    }

    fn safe_sub(self, rhs: u32) -> (r: Result<u32, ProtocolZapError>) {
        match self.checked_sub(rhs) {
            Some(result) => Ok(result),
            None => Err(ProtocolZapError::MathOverflow),
        }
    }

    fn safe_shl(self, offset: u32) -> (r: Result<u32, ProtocolZapError>) {
        if offset < 32 {
            Ok(self << offset)
        } else {
            Err(ProtocolZapError::MathOverflow)
        }
    }

    fn safe_shr(self, offset: u32) -> (r: Result<u32, ProtocolZapError>) {
        if offset < 32 {
            Ok(self >> offset)
        } else {
            Err(ProtocolZapError::MathOverflow)
        }
    }
}

impl SafeMath<u32> for u64 {
    open spec fn value(self) -> int {
        self as int
    }

    open spec fn lowest() -> int {
        u64::MIN as int
    }

    open spec fn highest() -> int {
        u64::MAX as int
    }

    /// Defined for an offset below the width; bits shifted out are dropped.
    open spec fn shl_spec(self, offset: u32) -> Option<int> {
        if offset < 64 {
            Some((self << offset) as int)
        } else {
            None
        }
    }

    /// Defined for an offset below the width.
    open spec fn shr_spec(self, offset: u32) -> Option<int> {
        if offset < 64 {
            Some((self >> offset) as int)
        } else {
            None
        }
    }

    fn safe_add(self, rhs: u64) -> (r: Result<u64, ProtocolZapError>) {
        match self.checked_add(rhs) {
            Some(result) => Ok(result),
            None => Err(ProtocolZapError::MathOverflow),
        }
    }

    fn safe_mul(self, rhs: u64) -> (r: Result<u64, ProtocolZapError>) {
        match self.checked_mul(rhs) {
            Some(result) => Ok(result),
            None => Err(ProtocolZapError::MathOverflow),
        }
    }

    fn safe_div(self, rhs: u64) -> (r: Result<u64, ProtocolZapError>) {
        proof {
            if rhs != 0 {
                lemma_trunc_nonnegative(self as int, rhs as int);
            }
        }
        match self.checked_div(rhs) {
            Some(result) => Ok(result),
            None => Err(ProtocolZapError::MathOverflow),
        }
    }

    fn safe_rem(self, rhs: u64) -> (r: Result<u64, ProtocolZapError>) {
        proof {
            if rhs != 0 {
                lemma_trunc_nonnegative(self as int, rhs as int);
            }
        }
        match self.checked_rem(rhs) {
            Some(result) => Ok(result),
            None => Err(ProtocolZapError::MathOverflow),
        }
    }

    fn safe_sub(self, rhs: u64) -> (r: Result<u64, ProtocolZapError>) {
        match self.checked_sub(rhs) {
            Some(result) => Ok(result),
            None => Err(ProtocolZapError::MathOverflow),
        }
    }

    fn safe_shl(self, offset: u32) -> (r: Result<u64, ProtocolZapError>) {
        if offset < 64 {
            Ok(self << offset)
        } else {
            Err(ProtocolZapError::MathOverflow)
        }
    }

    fn safe_shr(self, offset: u32) -> (r: Result<u64, ProtocolZapError>) {
        if offset < 64 {
            Ok(self >> offset)
        } else {
            Err(ProtocolZapError::MathOverflow)
        }
    }
}

impl SafeMath<u32> for i64 {
    open spec fn value(self) -> int {
        self as int
    }

    open spec fn lowest() -> int {
        i64::MIN as int
    }

    open spec fn highest() -> int {
        i64::MAX as int
    }

    /// Defined for an offset below the width; bits shifted out are dropped.
    open spec fn shl_spec(self, offset: u32) -> Option<int> {
        if offset < 64 {
            Some((self << offset) as int)
        } else {
            None
        }
    }

    /// Defined for an offset below the width.
    open spec fn shr_spec(self, offset: u32) -> Option<int> {
        if offset < 64 {
            Some((self >> offset) as int)
        } else {
            None
        }
    }

    fn safe_add(self, rhs: i64) -> (r: Result<i64, ProtocolZapError>) {
        match self.checked_add(rhs) {
            Some(result) => Ok(result),
            None => Err(ProtocolZapError::MathOverflow),
        }
    }

    fn safe_mul(self, rhs: i64) -> (r: Result<i64, ProtocolZapError>) {
        match self.checked_mul(rhs) {
            Some(result) => Ok(result),
            None => Err(ProtocolZapError::MathOverflow),
        }
    }

    fn safe_div(self, rhs: i64) -> (r: Result<i64, ProtocolZapError>) {
        proof {
            if rhs != 0 {
                lemma_trunc_div_range(self as int, rhs as int, i64::MAX as int);
            }
        }
        match self.checked_div(rhs) {
            Some(result) => Ok(result),
            None => Err(ProtocolZapError::MathOverflow),
        }
    }

    fn safe_rem(self, rhs: i64) -> (r: Result<i64, ProtocolZapError>) {
        proof {
            if rhs != 0 {
                lemma_trunc_div_range(self as int, rhs as int, i64::MAX as int);
            }
        }
        match self.checked_rem(rhs) {
            Some(result) => Ok(result),
            None => Err(ProtocolZapError::MathOverflow),
        }
    }

    fn safe_sub(self, rhs: i64) -> (r: Result<i64, ProtocolZapError>) {
        match self.checked_sub(rhs) {
            Some(result) => Ok(result),
            None => Err(ProtocolZapError::MathOverflow),
        }
    }

    fn safe_shl(self, offset: u32) -> (r: Result<i64, ProtocolZapError>) {
        if offset < 64 {
            Ok(self << offset)
        } else {
            Err(ProtocolZapError::MathOverflow)
        }
    }

    fn safe_shr(self, offset: u32) -> (r: Result<i64, ProtocolZapError>) {
        if offset < 64 {
            Ok(self >> offset)
        } else {
            Err(ProtocolZapError::MathOverflow)
        }
    }
}

impl SafeMath<u32> for u128 {
    open spec fn value(self) -> int {
        self as int
    }

    open spec fn lowest() -> int {
        u128::MIN as int
    }

    open spec fn highest() -> int {
        u128::MAX as int
    }

    /// Defined for an offset below the width; bits shifted out are dropped.
    open spec fn shl_spec(self, offset: u32) -> Option<int> {
        if offset < 128 {
            Some((self << offset) as int)
        } else {
            None
        }
    }

    /// Defined for an offset below the width.
    open spec fn shr_spec(self, offset: u32) -> Option<int> {
        if offset < 128 {
            Some((self >> offset) as int)
        } else {
            None
        }
    }

    fn safe_add(self, rhs: u128) -> (r: Result<u128, ProtocolZapError>) {
        match self.checked_add(rhs) {
            Some(result) => Ok(result),
            None => Err(ProtocolZapError::MathOverflow),
        }
    }

    fn safe_mul(self, rhs: u128) -> (r: Result<u128, ProtocolZapError>) {
        match self.checked_mul(rhs) {
            Some(result) => Ok(result),
            None => Err(ProtocolZapError::MathOverflow),
        }
    }

    fn safe_div(self, rhs: u128) -> (r: Result<u128, ProtocolZapError>) {
        proof {
            if rhs != 0 {
                lemma_trunc_nonnegative(self as int, rhs as int);
            }
        }
        match self.checked_div(rhs) {
            Some(result) => Ok(result),
            None => Err(ProtocolZapError::MathOverflow),
        }
    }

    fn safe_rem(self, rhs: u128) -> (r: Result<u128, ProtocolZapError>) {
        proof {
            if rhs != 0 {
                lemma_trunc_nonnegative(self as int, rhs as int);
            }
        }
        match self.checked_rem(rhs) {
            Some(result) => Ok(result),
            None => Err(ProtocolZapError::MathOverflow),
        }
    }

    fn safe_sub(self, rhs: u128) -> (r: Result<u128, ProtocolZapError>) {
        match self.checked_sub(rhs) {
            Some(result) => Ok(result),
            None => Err(ProtocolZapError::MathOverflow),
        }
    }

    fn safe_shl(self, offset: u32) -> (r: Result<u128, ProtocolZapError>) {
        if offset < 128 {
            Ok(self << offset)
        } else {
            Err(ProtocolZapError::MathOverflow)
        }
    }

    fn safe_shr(self, offset: u32) -> (r: Result<u128, ProtocolZapError>) {
        if offset < 128 {
            Ok(self >> offset)
        } else {
            Err(ProtocolZapError::MathOverflow)
        }
    }
}

impl SafeMath<u32> for i128 {
    open spec fn value(self) -> int {
        self as int
    }

    open spec fn lowest() -> int {
        i128::MIN as int
    }

    open spec fn highest() -> int {
        i128::MAX as int
    }

    /// Defined for an offset below the width; bits shifted out are dropped.
    open spec fn shl_spec(self, offset: u32) -> Option<int> {
        if offset < 128 {
            Some((self << offset) as int)
        } else {
            None
        }
    }

    /// Defined for an offset below the width.
    open spec fn shr_spec(self, offset: u32) -> Option<int> {
        if offset < 128 {
            Some((self >> offset) as int)
        } else {
            None
        }
    }

    fn safe_add(self, rhs: i128) -> (r: Result<i128, ProtocolZapError>) {
        match self.checked_add(rhs) {
            Some(result) => Ok(result),
            None => Err(ProtocolZapError::MathOverflow),
        }
    }

    fn safe_mul(self, rhs: i128) -> (r: Result<i128, ProtocolZapError>) {
        match self.checked_mul(rhs) {
            Some(result) => Ok(result),
            None => Err(ProtocolZapError::MathOverflow),
        }
    }

    fn safe_div(self, rhs: i128) -> (r: Result<i128, ProtocolZapError>) {
        proof {
            if rhs != 0 {
                lemma_trunc_div_range(self as int, rhs as int, i128::MAX as int);
            }
        }
        match self.checked_div(rhs) {
            Some(result) => Ok(result),
            None => Err(ProtocolZapError::MathOverflow),
        }
    }

    fn safe_rem(self, rhs: i128) -> (r: Result<i128, ProtocolZapError>) {
        proof {
            if rhs != 0 {
                lemma_trunc_div_range(self as int, rhs as int, i128::MAX as int);
            }
        }
        match self.checked_rem(rhs) {
            Some(result) => Ok(result),
            None => Err(ProtocolZapError::MathOverflow),
        }
    }

    fn safe_sub(self, rhs: i128) -> (r: Result<i128, ProtocolZapError>) {
        match self.checked_sub(rhs) {
            Some(result) => Ok(result),
            None => Err(ProtocolZapError::MathOverflow),
        }
    }

    fn safe_shl(self, offset: u32) -> (r: Result<i128, ProtocolZapError>) {
        if offset < 128 {
            Ok(self << offset)
        } else {
            Err(ProtocolZapError::MathOverflow)
        }
    }

    fn safe_shr(self, offset: u32) -> (r: Result<i128, ProtocolZapError>) {
        if offset < 128 {
            Ok(self >> offset)
        } else {
            Err(ProtocolZapError::MathOverflow)
        }
    }
}

impl SafeMath<u32> for usize {
    open spec fn value(self) -> int {
        self as int
    }

    open spec fn lowest() -> int {
        usize::MIN as int
    }

    open spec fn highest() -> int {
        usize::MAX as int
    }

    /// Defined for an offset below the width; bits shifted out are dropped.
    open spec fn shl_spec(self, offset: u32) -> Option<int> {
        if offset < usize::BITS {
            Some((self << offset) as int)
        } else {
            None
        }
    }

    /// Defined for an offset below the width.
    open spec fn shr_spec(self, offset: u32) -> Option<int> {
        if offset < usize::BITS {
            Some((self >> offset) as int)
        } else {
            None
        }
    }

    fn safe_add(self, rhs: usize) -> (r: Result<usize, ProtocolZapError>) {
        match self.checked_add(rhs) {
            Some(result) => Ok(result),
            None => Err(ProtocolZapError::MathOverflow),
        }
    }

    fn safe_mul(self, rhs: usize) -> (r: Result<usize, ProtocolZapError>) {
        match self.checked_mul(rhs) {
            Some(result) => Ok(result),
            None => Err(ProtocolZapError::MathOverflow),
        }
    }

    fn safe_div(self, rhs: usize) -> (r: Result<usize, ProtocolZapError>) {
        proof {
            if rhs != 0 {
                lemma_trunc_nonnegative(self as int, rhs as int);
            }
        }
        match self.checked_div(rhs) {
            Some(result) => Ok(result),
            None => Err(ProtocolZapError::MathOverflow),
        }
    }

    fn safe_rem(self, rhs: usize) -> (r: Result<usize, ProtocolZapError>) {
        proof {
            if rhs != 0 {
                lemma_trunc_nonnegative(self as int, rhs as int);
            }
        }
        match self.checked_rem(rhs) {
            Some(result) => Ok(result),
            None => Err(ProtocolZapError::MathOverflow),
        }
    }

    fn safe_sub(self, rhs: usize) -> (r: Result<usize, ProtocolZapError>) {
        match self.checked_sub(rhs) {
            Some(result) => Ok(result),
            None => Err(ProtocolZapError::MathOverflow),
        }
    }

    fn safe_shl(self, offset: u32) -> (r: Result<usize, ProtocolZapError>) {
        if offset < usize::BITS {
            Ok(self << offset)
        } else {
            Err(ProtocolZapError::MathOverflow)
        }
    }

    fn safe_shr(self, offset: u32) -> (r: Result<usize, ProtocolZapError>) {
        if offset < usize::BITS {
            Ok(self >> offset)
        } else {
            Err(ProtocolZapError::MathOverflow)
        }
    }
}

impl SafeMath<usize> for U256 {
    open spec fn value(self) -> int {
        self@ as int
    }

    open spec fn lowest() -> int {
        0
    }

    open spec fn highest() -> int {
        two_pow(256) - 1
    }

    /// Defined where no set bit is shifted out.
    open spec fn shl_spec(self, offset: usize) -> Option<int> {
        if self@ * two_pow(offset as nat) < two_pow(256) {
            Some((self@ * two_pow(offset as nat)) as int)
        } else {
            None
        }
    }

    /// Defined where no set bit is shifted out.
    open spec fn shr_spec(self, offset: usize) -> Option<int> {
        if self@ % two_pow(offset as nat) == 0 {
            Some((self@ / two_pow(offset as nat)) as int)
        } else {
            None
        }
    }

    fn safe_add(self, rhs: U256) -> (r: Result<U256, ProtocolZapError>) {
        proof {
            self.lemma_bound();
            rhs.lemma_bound();
            if rhs@ != 0 {
                lemma_trunc_nonnegative(self@ as int, rhs@ as int);
            }
        }
        match uint_checked_add::<256, 4>(&self.limbs, &rhs.limbs) {
            Some(limbs) => Ok(U256 { limbs }),
            None => Err(ProtocolZapError::MathOverflow),
        }
    }

    fn safe_mul(self, rhs: U256) -> (r: Result<U256, ProtocolZapError>) {
        proof {
            self.lemma_bound();
            rhs.lemma_bound();
            if rhs@ != 0 {
                lemma_trunc_nonnegative(self@ as int, rhs@ as int);
            }
        }
        match uint_checked_mul::<256, 4>(&self.limbs, &rhs.limbs) {
            Some(limbs) => Ok(U256 { limbs }),
            None => Err(ProtocolZapError::MathOverflow),
        }
    }

    fn safe_div(self, rhs: U256) -> (r: Result<U256, ProtocolZapError>) {
        proof {
            self.lemma_bound();
            rhs.lemma_bound();
            if rhs@ != 0 {
                lemma_trunc_nonnegative(self@ as int, rhs@ as int);
            }
        }
        match uint_checked_div::<256, 4>(&self.limbs, &rhs.limbs) {
            Some(limbs) => Ok(U256 { limbs }),
            None => Err(ProtocolZapError::MathOverflow),
        }
    }

    fn safe_rem(self, rhs: U256) -> (r: Result<U256, ProtocolZapError>) {
        proof {
            self.lemma_bound();
            rhs.lemma_bound();
            if rhs@ != 0 {
                lemma_trunc_nonnegative(self@ as int, rhs@ as int);
            }
        }
        match uint_checked_rem::<256, 4>(&self.limbs, &rhs.limbs) {
            Some(limbs) => Ok(U256 { limbs }),
            None => Err(ProtocolZapError::MathOverflow),
        }
    }

    fn safe_sub(self, rhs: U256) -> (r: Result<U256, ProtocolZapError>) {
        proof {
            self.lemma_bound();
            rhs.lemma_bound();
            if rhs@ != 0 {
                lemma_trunc_nonnegative(self@ as int, rhs@ as int);
            }
        }
        match uint_checked_sub::<256, 4>(&self.limbs, &rhs.limbs) {
            Some(limbs) => Ok(U256 { limbs }),
            None => Err(ProtocolZapError::MathOverflow),
        }
    }

    fn safe_shl(self, offset: usize) -> (r: Result<U256, ProtocolZapError>) {
        match uint_checked_shl::<256, 4>(&self.limbs, offset) {
            Some(limbs) => Ok(U256 { limbs }),
            None => Err(ProtocolZapError::MathOverflow),
        }
    }

    fn safe_shr(self, offset: usize) -> (r: Result<U256, ProtocolZapError>) {
        match uint_checked_shr::<256, 4>(&self.limbs, offset) {
            Some(limbs) => Ok(U256 { limbs }),
            None => Err(ProtocolZapError::MathOverflow),
        }
    }
}

impl SafeMath<usize> for U192 {
    open spec fn value(self) -> int {
        self@ as int
    }

    open spec fn lowest() -> int {
        0
    }

    open spec fn highest() -> int {
        two_pow(192) - 1
    }

    /// Defined where no set bit is shifted out.
    open spec fn shl_spec(self, offset: usize) -> Option<int> {
        if self@ * two_pow(offset as nat) < two_pow(192) {
            Some((self@ * two_pow(offset as nat)) as int)
        } else {
            None
        }
    }

    /// Defined where no set bit is shifted out.
    open spec fn shr_spec(self, offset: usize) -> Option<int> {
        if self@ % two_pow(offset as nat) == 0 {
            Some((self@ / two_pow(offset as nat)) as int)
        } else {
            None
        }
    }

    fn safe_add(self, rhs: U192) -> (r: Result<U192, ProtocolZapError>) {
        proof {
            self.lemma_bound();
            rhs.lemma_bound();
            if rhs@ != 0 {
                lemma_trunc_nonnegative(self@ as int, rhs@ as int);
            }
        }
        match uint_checked_add::<192, 3>(&self.limbs, &rhs.limbs) {
            Some(limbs) => Ok(U192 { limbs }),
            None => Err(ProtocolZapError::MathOverflow),
        }
    }

    fn safe_mul(self, rhs: U192) -> (r: Result<U192, ProtocolZapError>) {
        proof {
            self.lemma_bound();
            rhs.lemma_bound();
            if rhs@ != 0 {
                lemma_trunc_nonnegative(self@ as int, rhs@ as int);
            }
        }
        match uint_checked_mul::<192, 3>(&self.limbs, &rhs.limbs) {
            Some(limbs) => Ok(U192 { limbs }),
            None => Err(ProtocolZapError::MathOverflow),
        }
    }

    fn safe_div(self, rhs: U192) -> (r: Result<U192, ProtocolZapError>) {
        proof {
            self.lemma_bound();
            rhs.lemma_bound();
            if rhs@ != 0 {
                lemma_trunc_nonnegative(self@ as int, rhs@ as int);
            }
        }
        match uint_checked_div::<192, 3>(&self.limbs, &rhs.limbs) {
            Some(limbs) => Ok(U192 { limbs }),
            None => Err(ProtocolZapError::MathOverflow),
        }
    }

    fn safe_rem(self, rhs: U192) -> (r: Result<U192, ProtocolZapError>) {
        proof {
            self.lemma_bound();
            rhs.lemma_bound();
            if rhs@ != 0 {
                lemma_trunc_nonnegative(self@ as int, rhs@ as int);
            }
        }
        match uint_checked_rem::<192, 3>(&self.limbs, &rhs.limbs) {
            Some(limbs) => Ok(U192 { limbs }),
            None => Err(ProtocolZapError::MathOverflow),
        }
    }

    fn safe_sub(self, rhs: U192) -> (r: Result<U192, ProtocolZapError>) {
        proof {
            self.lemma_bound();
            rhs.lemma_bound();
            if rhs@ != 0 {
                lemma_trunc_nonnegative(self@ as int, rhs@ as int);
            }
        }
        match uint_checked_sub::<192, 3>(&self.limbs, &rhs.limbs) {
            Some(limbs) => Ok(U192 { limbs }),
            None => Err(ProtocolZapError::MathOverflow),
        }
    }

    fn safe_shl(self, offset: usize) -> (r: Result<U192, ProtocolZapError>) {
        match uint_checked_shl::<192, 3>(&self.limbs, offset) {
            Some(limbs) => Ok(U192 { limbs }),
            None => Err(ProtocolZapError::MathOverflow),
        }
    }

    fn safe_shr(self, offset: usize) -> (r: Result<U192, ProtocolZapError>) {
        match uint_checked_shr::<192, 3>(&self.limbs, offset) {
            Some(limbs) => Ok(U192 { limbs }),
            None => Err(ProtocolZapError::MathOverflow),
        }
    }
}

impl SafeMath<usize> for U512 {
    open spec fn value(self) -> int {
        self@ as int
    }

    open spec fn lowest() -> int {
        0
    }

    open spec fn highest() -> int {
        two_pow(512) - 1
    }

    /// Defined where no set bit is shifted out.
    open spec fn shl_spec(self, offset: usize) -> Option<int> {
        if self@ * two_pow(offset as nat) < two_pow(512) {
            Some((self@ * two_pow(offset as nat)) as int)
        } else {
            None
        }
    }

    /// Defined where no set bit is shifted out.
    open spec fn shr_spec(self, offset: usize) -> Option<int> {
        if self@ % two_pow(offset as nat) == 0 {
            Some((self@ / two_pow(offset as nat)) as int)
        } else {
            None
        }
    }

    fn safe_add(self, rhs: U512) -> (r: Result<U512, ProtocolZapError>) {
        proof {
            self.lemma_bound();
            rhs.lemma_bound();
            if rhs@ != 0 {
                lemma_trunc_nonnegative(self@ as int, rhs@ as int);
            }
        }
        match uint_checked_add::<512, 8>(&self.limbs, &rhs.limbs) {
            Some(limbs) => Ok(U512 { limbs }),
            None => Err(ProtocolZapError::MathOverflow),
        }
    }

    fn safe_mul(self, rhs: U512) -> (r: Result<U512, ProtocolZapError>) {
        proof {
            self.lemma_bound();
            rhs.lemma_bound();
            if rhs@ != 0 {
                lemma_trunc_nonnegative(self@ as int, rhs@ as int);
            }
        }
        match uint_checked_mul::<512, 8>(&self.limbs, &rhs.limbs) {
            Some(limbs) => Ok(U512 { limbs }),
            None => Err(ProtocolZapError::MathOverflow),
        }
    }

    fn safe_div(self, rhs: U512) -> (r: Result<U512, ProtocolZapError>) {
        proof {
            self.lemma_bound();
            rhs.lemma_bound();
            if rhs@ != 0 {
                lemma_trunc_nonnegative(self@ as int, rhs@ as int);
            }
        }
        match uint_checked_div::<512, 8>(&self.limbs, &rhs.limbs) {
            Some(limbs) => Ok(U512 { limbs }),
            None => Err(ProtocolZapError::MathOverflow),
        }
    }

    fn safe_rem(self, rhs: U512) -> (r: Result<U512, ProtocolZapError>) {
        proof {
            self.lemma_bound();
            rhs.lemma_bound();
            if rhs@ != 0 {
                lemma_trunc_nonnegative(self@ as int, rhs@ as int);
            }
        }
        match uint_checked_rem::<512, 8>(&self.limbs, &rhs.limbs) {
            Some(limbs) => Ok(U512 { limbs }),
            None => Err(ProtocolZapError::MathOverflow),
        }
    }

    fn safe_sub(self, rhs: U512) -> (r: Result<U512, ProtocolZapError>) {
        proof {
            self.lemma_bound();
            rhs.lemma_bound();
            if rhs@ != 0 {
                lemma_trunc_nonnegative(self@ as int, rhs@ as int);
            }
        }
        match uint_checked_sub::<512, 8>(&self.limbs, &rhs.limbs) {
            Some(limbs) => Ok(U512 { limbs }),
            None => Err(ProtocolZapError::MathOverflow),
        }
    }

    fn safe_shl(self, offset: usize) -> (r: Result<U512, ProtocolZapError>) {
        match uint_checked_shl::<512, 8>(&self.limbs, offset) {
            Some(limbs) => Ok(U512 { limbs }),
            None => Err(ProtocolZapError::MathOverflow),
        }
    }

    fn safe_shr(self, offset: usize) -> (r: Result<U512, ProtocolZapError>) {
        match uint_checked_shr::<512, 8>(&self.limbs, offset) {
            Some(limbs) => Ok(U512 { limbs }),
            None => Err(ProtocolZapError::MathOverflow),
        }
    }
}

/// A narrowing conversion that fails instead of truncating.
pub trait SafeCast<T>: Sized {
    /// The converted value, where the target type can hold it.
    spec fn cast_spec(self) -> Option<T>;

    /// Converts; fails with `TypeCastFailed` where the value does not fit.
    fn safe_cast(self) -> (r: Result<T, ProtocolZapError>)
        ensures
            r == match self.cast_spec() {
                Some(v) => Ok::<T, ProtocolZapError>(v),
                None => Err::<T, ProtocolZapError>(ProtocolZapError::TypeCastFailed),
            },
    ;
}

impl SafeCast<u16> for usize {
    open spec fn cast_spec(self) -> Option<u16> {
        if self <= u16::MAX {
            Some(self as u16)
        } else {
            None
        }
    }

    fn safe_cast(self) -> (r: Result<u16, ProtocolZapError>) {
        if self <= 0xffff {
            Ok(self as u16)
        } else {
            Err(ProtocolZapError::TypeCastFailed)
        }
    }
}

} // verus!
