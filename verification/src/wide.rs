//! Unsigned integers of 192, 256 and 512 bits, held as little-endian limbs.
//!
//! The arithmetic itself is done by the `ruint` crate. Each operation is
//! reached through one function whose contract states, over the mathematical
//! value of the limbs, what `ruint` documents of it.

use vstd::prelude::*;

verus! {

/// Two to the power sixty-four, the weight of one limb.
pub open spec fn limb_base() -> nat {
    0x1_0000_0000_0000_0000
}

/// The number that little-endian limbs stand for.
pub open spec fn limbs_value(limbs: Seq<u64>) -> nat
    decreases limbs.len(),
{
    if limbs.len() == 0 {
        0
    } else {
        limbs[0] as nat + limb_base() * limbs_value(limbs.drop_first())
    }
}

/// Two to the power `bits`.
pub open spec fn two_pow(bits: nat) -> nat {
    vstd::arithmetic::power2::pow2(bits)
}

/// Limbs stand for a number below two to the power of sixty-four times their count.
pub proof fn lemma_limbs_value_bound(limbs: Seq<u64>)
    ensures
        limbs_value(limbs) < two_pow(64 * limbs.len()),
    decreases limbs.len(),
{
    if limbs.len() == 0 {
        vstd::arithmetic::power2::lemma2_to64();
    } else {
        let rest = limbs.drop_first();
        lemma_limbs_value_bound(rest);
        vstd::arithmetic::power2::lemma2_to64();
        vstd::arithmetic::power2::lemma_pow2_adds(64, 64 * rest.len());
        let high = limbs_value(rest);
        let top = two_pow(64 * rest.len());
        assert(limb_base() * high <= limb_base() * (top - 1)) by (nonlinear_arith)
            requires
                high <= top - 1,
        ;
        assert(limb_base() * (top - 1) == limb_base() * top - limb_base()) by (nonlinear_arith);
        assert(64 * limbs.len() == 64 + 64 * rest.len());
    }
}

/// `ruint::Uint::from` on a `u128`: the limbs of the same number.
#[verifier::external_body]
pub(crate) fn uint_from_u128<const BITS: usize, const LIMBS: usize>(x: u128) -> (r: [u64; LIMBS])
    requires
        LIMBS >= 2,
        BITS == 64 * LIMBS,
    ensures
        limbs_value(r@) == x,
{
    ruint::Uint::<BITS, LIMBS>::from(x).into_limbs()
}

/// `TryFrom<ruint::Uint>` for `u128`: the number itself where it is below
/// two to the 128, nothing otherwise.
#[verifier::external_body]
pub(crate) fn uint_to_u128<const BITS: usize, const LIMBS: usize>(a: &[u64; LIMBS]) -> (r: Option<u128>)
    requires
        LIMBS >= 2,
        BITS == 64 * LIMBS,
    ensures
        r.is_some() <==> limbs_value(a@) <= u128::MAX,
        r.is_some() ==> r.unwrap() == limbs_value(a@),
{
    u128::try_from(ruint::Uint::<BITS, LIMBS>::from_limbs(*a)).ok()
}

/// `ruint::Uint::checked_add`: the sum where it is below two to the `BITS`.
#[verifier::external_body]
pub(crate) fn uint_checked_add<const BITS: usize, const LIMBS: usize>(
    a: &[u64; LIMBS],
    b: &[u64; LIMBS],
) -> (r: Option<[u64; LIMBS]>)
    requires
        LIMBS >= 1,
        BITS == 64 * LIMBS,
    ensures
        r.is_some() <==> limbs_value(a@) + limbs_value(b@) < two_pow(BITS as nat),
        r.is_some() ==> limbs_value(r.unwrap()@) == limbs_value(a@) + limbs_value(b@),
{
    let x = ruint::Uint::<BITS, LIMBS>::from_limbs(*a);
    let y = ruint::Uint::<BITS, LIMBS>::from_limbs(*b);
    match x.checked_add(y) {
        Some(z) => Some(z.into_limbs()),
        None => None,
    }
}

/// `ruint::Uint::checked_sub`: the difference where it is not negative.
#[verifier::external_body]
pub(crate) fn uint_checked_sub<const BITS: usize, const LIMBS: usize>(
    a: &[u64; LIMBS],
    b: &[u64; LIMBS],
) -> (r: Option<[u64; LIMBS]>)
    requires
        LIMBS >= 1,
        BITS == 64 * LIMBS,
    ensures
        r.is_some() <==> limbs_value(a@) >= limbs_value(b@),
        r.is_some() ==> limbs_value(r.unwrap()@) == limbs_value(a@) - limbs_value(b@),
{
    let x = ruint::Uint::<BITS, LIMBS>::from_limbs(*a);
    let y = ruint::Uint::<BITS, LIMBS>::from_limbs(*b);
    match x.checked_sub(y) {
        Some(z) => Some(z.into_limbs()),
        None => None,
    }
}

/// `ruint::Uint::checked_mul`: the product where it is below two to the `BITS`.
#[verifier::external_body]
pub(crate) fn uint_checked_mul<const BITS: usize, const LIMBS: usize>(
    a: &[u64; LIMBS],
    b: &[u64; LIMBS],
) -> (r: Option<[u64; LIMBS]>)
    requires
        LIMBS >= 1,
        BITS == 64 * LIMBS,
    ensures
        r.is_some() <==> limbs_value(a@) * limbs_value(b@) < two_pow(BITS as nat),
        r.is_some() ==> limbs_value(r.unwrap()@) == limbs_value(a@) * limbs_value(b@),
{
    let x = ruint::Uint::<BITS, LIMBS>::from_limbs(*a);
    let y = ruint::Uint::<BITS, LIMBS>::from_limbs(*b);
    match x.checked_mul(y) {
        Some(z) => Some(z.into_limbs()),
        None => None,
    }
}

/// `ruint::Uint::checked_div`: the quotient rounded down, nothing for a zero divisor.
#[verifier::external_body]
pub(crate) fn uint_checked_div<const BITS: usize, const LIMBS: usize>(
    a: &[u64; LIMBS],
    b: &[u64; LIMBS],
) -> (r: Option<[u64; LIMBS]>)
    requires
        LIMBS >= 1,
        BITS == 64 * LIMBS,
    ensures
        r.is_some() <==> limbs_value(b@) != 0,
        r.is_some() ==> limbs_value(r.unwrap()@) == limbs_value(a@) / limbs_value(b@),
{
    let x = ruint::Uint::<BITS, LIMBS>::from_limbs(*a);
    let y = ruint::Uint::<BITS, LIMBS>::from_limbs(*b);
    match x.checked_div(y) {
        Some(z) => Some(z.into_limbs()),
        None => None,
    }
}

/// `ruint::Uint::checked_rem`: the remainder, nothing for a zero divisor.
#[verifier::external_body]
pub(crate) fn uint_checked_rem<const BITS: usize, const LIMBS: usize>(
    a: &[u64; LIMBS],
    b: &[u64; LIMBS],
) -> (r: Option<[u64; LIMBS]>)
    requires
        LIMBS >= 1,
        BITS == 64 * LIMBS,
    ensures
        r.is_some() <==> limbs_value(b@) != 0,
        r.is_some() ==> limbs_value(r.unwrap()@) == limbs_value(a@) % limbs_value(b@),
{
    let x = ruint::Uint::<BITS, LIMBS>::from_limbs(*a);
    let y = ruint::Uint::<BITS, LIMBS>::from_limbs(*b);
    match x.checked_rem(y) {
        Some(z) => Some(z.into_limbs()),
        None => None,
    }
}

/// `ruint::Uint::div_ceil`: the quotient rounded up. The outside function
/// panics on a zero divisor, which the precondition leaves out.
#[verifier::external_body]
pub(crate) fn uint_div_ceil<const BITS: usize, const LIMBS: usize>(
    a: &[u64; LIMBS],
    b: &[u64; LIMBS],
) -> (r: [u64; LIMBS])
    requires
        LIMBS >= 1,
        BITS == 64 * LIMBS,
        limbs_value(b@) != 0,
    ensures
        limbs_value(r@) == (limbs_value(a@) + limbs_value(b@) - 1) / (limbs_value(b@) as int),
{
    let x = ruint::Uint::<BITS, LIMBS>::from_limbs(*a);
    let y = ruint::Uint::<BITS, LIMBS>::from_limbs(*b);
    x.div_ceil(y).into_limbs()
}

/// `ruint::Uint::checked_shl`: the number times two to the `offset`, where
/// that is below two to the `BITS`; unlike the shift of a primitive integer,
/// it fails exactly when set bits would be shifted out.
#[verifier::external_body]
pub(crate) fn uint_checked_shl<const BITS: usize, const LIMBS: usize>(
    a: &[u64; LIMBS],
    offset: usize,
) -> (r: Option<[u64; LIMBS]>)
    requires
        LIMBS >= 1,
        BITS == 64 * LIMBS,
    ensures
        r.is_some() <==> limbs_value(a@) * two_pow(offset as nat) < two_pow(BITS as nat),
        r.is_some() ==> limbs_value(r.unwrap()@) == limbs_value(a@) * two_pow(offset as nat),
{
    match ruint::Uint::<BITS, LIMBS>::from_limbs(*a).checked_shl(offset) {
        Some(z) => Some(z.into_limbs()),
        None => None,
    }
}

/// `ruint::Uint::checked_shr`: the number divided by two to the `offset`,
/// where that division is exact; it fails when set bits would be shifted out.
#[verifier::external_body]
pub(crate) fn uint_checked_shr<const BITS: usize, const LIMBS: usize>(
    a: &[u64; LIMBS],
    offset: usize,
) -> (r: Option<[u64; LIMBS]>)
    requires
        LIMBS >= 1,
        BITS == 64 * LIMBS,
    ensures
        r.is_some() <==> limbs_value(a@) % two_pow(offset as nat) == 0,
        r.is_some() ==> limbs_value(r.unwrap()@) == limbs_value(a@) / two_pow(offset as nat),
{
    match ruint::Uint::<BITS, LIMBS>::from_limbs(*a).checked_shr(offset) {
        Some(z) => Some(z.into_limbs()),
        None => None,
    }
}

/// `ruint::Uint::is_zero`.
#[verifier::external_body]
pub(crate) fn uint_is_zero<const BITS: usize, const LIMBS: usize>(a: &[u64; LIMBS]) -> (r: bool)
    requires
        LIMBS >= 1,
        BITS == 64 * LIMBS,
    ensures
        r == (limbs_value(a@) == 0),
{
    ruint::Uint::<BITS, LIMBS>::from_limbs(*a).is_zero()
}

/// The `>` of `ruint::Uint`, which orders by the numbers.
#[verifier::external_body]
pub(crate) fn uint_gt<const BITS: usize, const LIMBS: usize>(
    a: &[u64; LIMBS],
    b: &[u64; LIMBS],
) -> (r: bool)
    requires
        LIMBS >= 1,
        BITS == 64 * LIMBS,
    ensures
        r == (limbs_value(a@) > limbs_value(b@)),
{
    ruint::Uint::<BITS, LIMBS>::from_limbs(*a) > ruint::Uint::<BITS, LIMBS>::from_limbs(*b)
}

/// An unsigned integer of 192 bits.
#[derive(Clone, Copy, Debug)]
pub struct U192 {
    /// The limbs, least significant first.
    pub limbs: [u64; 3],
}

impl View for U192 {
    type V = nat;

    open spec fn view(&self) -> nat {
        limbs_value(self.limbs@)
    }
}

impl U192 {
    /// The number of bits.
    pub open spec fn bits() -> nat {
        192
    }

    /// Every value lies below two to the power of the width.
    pub proof fn lemma_bound(self)
        ensures
            self@ < two_pow(192),
    {
        lemma_limbs_value_bound(self.limbs@);
    }

    /// Widens a 128-bit integer.
    pub fn from_u128(x: u128) -> (r: Self)
        ensures
            r@ == x,
    {
        U192 { limbs: uint_from_u128::<192, 3>(x) }
    }

    /// Widens a 64-bit integer.
    pub fn from_u64(x: u64) -> (r: Self)
        ensures
            r@ == x,
    {
        U192 { limbs: uint_from_u128::<192, 3>(x as u128) }
    }

    /// Narrows to 128 bits, where the number fits.
    pub fn to_u128(&self) -> (r: Option<u128>)
        ensures
            r.is_some() <==> self@ <= u128::MAX,
            r.is_some() ==> r.unwrap() == self@,
    {
        uint_to_u128::<192, 3>(&self.limbs)
    }

    /// Tells whether the number is zero.
    pub fn is_zero(&self) -> (r: bool)
        ensures
            r == (self@ == 0),
    {
        uint_is_zero::<192, 3>(&self.limbs)
    }

    /// Adds; nothing where the sum does not fit.
    pub fn checked_add(&self, rhs: &Self) -> (r: Option<Self>)
        ensures
            r.is_some() <==> self@ + rhs@ < two_pow(192),
            r.is_some() ==> r.unwrap()@ == self@ + rhs@,
    {
        match uint_checked_add::<192, 3>(&self.limbs, &rhs.limbs) {
            Some(limbs) => Some(U192 { limbs }),
            None => None,
        }
    }

    /// Subtracts; nothing where the difference is negative.
    pub fn checked_sub(&self, rhs: &Self) -> (r: Option<Self>)
        ensures
            r.is_some() <==> self@ >= rhs@,
            r.is_some() ==> r.unwrap()@ == self@ - rhs@,
    {
        match uint_checked_sub::<192, 3>(&self.limbs, &rhs.limbs) {
            Some(limbs) => Some(U192 { limbs }),
            None => None,
        }
    }

    /// Multiplies; nothing where the product does not fit.
    pub fn checked_mul(&self, rhs: &Self) -> (r: Option<Self>)
        ensures
            r.is_some() <==> self@ * rhs@ < two_pow(192),
            r.is_some() ==> r.unwrap()@ == self@ * rhs@,
    {
        match uint_checked_mul::<192, 3>(&self.limbs, &rhs.limbs) {
            Some(limbs) => Some(U192 { limbs }),
            None => None,
        }
    }

    /// Divides, rounding down; nothing for a divisor of zero.
    pub fn checked_div(&self, rhs: &Self) -> (r: Option<Self>)
        ensures
            r.is_some() <==> rhs@ != 0,
            r.is_some() ==> r.unwrap()@ == self@ / rhs@,
    {
        match uint_checked_div::<192, 3>(&self.limbs, &rhs.limbs) {
            Some(limbs) => Some(U192 { limbs }),
            None => None,
        }
    }

    /// Shifts left; nothing where a set bit would be shifted out.
    pub fn checked_shl(&self, offset: usize) -> (r: Option<Self>)
        ensures
            r.is_some() <==> self@ * two_pow(offset as nat) < two_pow(192),
            r.is_some() ==> r.unwrap()@ == self@ * two_pow(offset as nat),
    {
        match uint_checked_shl::<192, 3>(&self.limbs, offset) {
            Some(limbs) => Some(U192 { limbs }),
            None => None,
        }
    }

    /// Tells whether the number is greater than `other`.
    pub fn gt(&self, other: &Self) -> (r: bool)
        ensures
            r == (self@ > other@),
    {
        uint_gt::<192, 3>(&self.limbs, &other.limbs)
    }

    /// Divides, rounding up. The divisor must not be zero.
    pub fn div_ceil(&self, rhs: &Self) -> (r: Self)
        requires
            rhs@ != 0,
        ensures
            r@ == (self@ + rhs@ - 1) / (rhs@ as int),
    {
        U192 { limbs: uint_div_ceil::<192, 3>(&self.limbs, &rhs.limbs) }
    }
}

/// An unsigned integer of 256 bits.
#[derive(Clone, Copy, Debug)]
pub struct U256 {
    /// The limbs, least significant first.
    pub limbs: [u64; 4],
}

impl View for U256 {
    type V = nat;

    open spec fn view(&self) -> nat {
        limbs_value(self.limbs@)
    }
}

impl U256 {
    /// The number of bits.
    pub open spec fn bits() -> nat {
        256
    }

    /// Every value lies below two to the power of the width.
    pub proof fn lemma_bound(self)
        ensures
            self@ < two_pow(256),
    {
        lemma_limbs_value_bound(self.limbs@);
    }

    /// Widens a 128-bit integer.
    pub fn from_u128(x: u128) -> (r: Self)
        ensures
            r@ == x,
    {
        U256 { limbs: uint_from_u128::<256, 4>(x) }
    }

    /// Widens a 64-bit integer.
    pub fn from_u64(x: u64) -> (r: Self)
        ensures
            r@ == x,
    {
        U256 { limbs: uint_from_u128::<256, 4>(x as u128) }
    }

    /// Narrows to 128 bits, where the number fits.
    pub fn to_u128(&self) -> (r: Option<u128>)
        ensures
            r.is_some() <==> self@ <= u128::MAX,
            r.is_some() ==> r.unwrap() == self@,
    {
        uint_to_u128::<256, 4>(&self.limbs)
    }

    /// Tells whether the number is zero.
    pub fn is_zero(&self) -> (r: bool)
        ensures
            r == (self@ == 0),
    {
        uint_is_zero::<256, 4>(&self.limbs)
    }

    /// Adds; nothing where the sum does not fit.
    pub fn checked_add(&self, rhs: &Self) -> (r: Option<Self>)
        ensures
            r.is_some() <==> self@ + rhs@ < two_pow(256),
            r.is_some() ==> r.unwrap()@ == self@ + rhs@,
    {
        match uint_checked_add::<256, 4>(&self.limbs, &rhs.limbs) {
            Some(limbs) => Some(U256 { limbs }),
            None => None,
        }
    }

    /// Subtracts; nothing where the difference is negative.
    pub fn checked_sub(&self, rhs: &Self) -> (r: Option<Self>)
        ensures
            r.is_some() <==> self@ >= rhs@,
            r.is_some() ==> r.unwrap()@ == self@ - rhs@,
    {
        match uint_checked_sub::<256, 4>(&self.limbs, &rhs.limbs) {
            Some(limbs) => Some(U256 { limbs }),
            None => None,
        }
    }

    /// Multiplies; nothing where the product does not fit.
    pub fn checked_mul(&self, rhs: &Self) -> (r: Option<Self>)
        ensures
            r.is_some() <==> self@ * rhs@ < two_pow(256),
            r.is_some() ==> r.unwrap()@ == self@ * rhs@,
    {
        match uint_checked_mul::<256, 4>(&self.limbs, &rhs.limbs) {
            Some(limbs) => Some(U256 { limbs }),
            None => None,
        }
    }

    /// Divides, rounding down; nothing for a divisor of zero.
    pub fn checked_div(&self, rhs: &Self) -> (r: Option<Self>)
        ensures
            r.is_some() <==> rhs@ != 0,
            r.is_some() ==> r.unwrap()@ == self@ / rhs@,
    {
        match uint_checked_div::<256, 4>(&self.limbs, &rhs.limbs) {
            Some(limbs) => Some(U256 { limbs }),
            None => None,
        }
    }

    /// Shifts left; nothing where a set bit would be shifted out.
    pub fn checked_shl(&self, offset: usize) -> (r: Option<Self>)
        ensures
            r.is_some() <==> self@ * two_pow(offset as nat) < two_pow(256),
            r.is_some() ==> r.unwrap()@ == self@ * two_pow(offset as nat),
    {
        match uint_checked_shl::<256, 4>(&self.limbs, offset) {
            Some(limbs) => Some(U256 { limbs }),
            None => None,
        }
    }

    /// Tells whether the number is greater than `other`.
    pub fn gt(&self, other: &Self) -> (r: bool)
        ensures
            r == (self@ > other@),
    {
        uint_gt::<256, 4>(&self.limbs, &other.limbs)
    }

    /// Divides, rounding up. The divisor must not be zero.
    pub fn div_ceil(&self, rhs: &Self) -> (r: Self)
        requires
            rhs@ != 0,
        ensures
            r@ == (self@ + rhs@ - 1) / (rhs@ as int),
    {
        U256 { limbs: uint_div_ceil::<256, 4>(&self.limbs, &rhs.limbs) }
    }
}

/// An unsigned integer of 512 bits.
#[derive(Clone, Copy, Debug)]
pub struct U512 {
    /// The limbs, least significant first.
    pub limbs: [u64; 8],
}

impl View for U512 {
    type V = nat;

    open spec fn view(&self) -> nat {
        limbs_value(self.limbs@)
    }
}

impl U512 {
    /// The number of bits.
    pub open spec fn bits() -> nat {
        512
    }

    /// Every value lies below two to the power of the width.
    pub proof fn lemma_bound(self)
        ensures
            self@ < two_pow(512),
    {
        lemma_limbs_value_bound(self.limbs@);
    }

    /// Widens a 128-bit integer.
    pub fn from_u128(x: u128) -> (r: Self)
        ensures
            r@ == x,
    {
        U512 { limbs: uint_from_u128::<512, 8>(x) }
    }

    /// Widens a 64-bit integer.
    pub fn from_u64(x: u64) -> (r: Self)
        ensures
            r@ == x,
    {
        U512 { limbs: uint_from_u128::<512, 8>(x as u128) }
    }

    /// Narrows to 128 bits, where the number fits.
    pub fn to_u128(&self) -> (r: Option<u128>)
        ensures
            r.is_some() <==> self@ <= u128::MAX,
            r.is_some() ==> r.unwrap() == self@,
    {
        uint_to_u128::<512, 8>(&self.limbs)
    }

    /// Tells whether the number is zero.
    pub fn is_zero(&self) -> (r: bool)
        ensures
            r == (self@ == 0),
    {
        uint_is_zero::<512, 8>(&self.limbs)
    }

    /// Adds; nothing where the sum does not fit.
    pub fn checked_add(&self, rhs: &Self) -> (r: Option<Self>)
        ensures
            r.is_some() <==> self@ + rhs@ < two_pow(512),
            r.is_some() ==> r.unwrap()@ == self@ + rhs@,
    {
        match uint_checked_add::<512, 8>(&self.limbs, &rhs.limbs) {
            Some(limbs) => Some(U512 { limbs }),
            None => None,
        }
    }

    /// Subtracts; nothing where the difference is negative.
    pub fn checked_sub(&self, rhs: &Self) -> (r: Option<Self>)
        ensures
            r.is_some() <==> self@ >= rhs@,
            r.is_some() ==> r.unwrap()@ == self@ - rhs@,
    {
        match uint_checked_sub::<512, 8>(&self.limbs, &rhs.limbs) {
            Some(limbs) => Some(U512 { limbs }),
            None => None,
        }
    }

    /// Multiplies; nothing where the product does not fit.
    pub fn checked_mul(&self, rhs: &Self) -> (r: Option<Self>)
        ensures
            r.is_some() <==> self@ * rhs@ < two_pow(512),
            r.is_some() ==> r.unwrap()@ == self@ * rhs@,
    {
        match uint_checked_mul::<512, 8>(&self.limbs, &rhs.limbs) {
            Some(limbs) => Some(U512 { limbs }),
            None => None,
        }
    }

    /// Divides, rounding down; nothing for a divisor of zero.
    pub fn checked_div(&self, rhs: &Self) -> (r: Option<Self>)
        ensures
            r.is_some() <==> rhs@ != 0,
            r.is_some() ==> r.unwrap()@ == self@ / rhs@,
    {
        match uint_checked_div::<512, 8>(&self.limbs, &rhs.limbs) {
            Some(limbs) => Some(U512 { limbs }),
            None => None,
        }
    }

    /// Shifts left; nothing where a set bit would be shifted out.
    pub fn checked_shl(&self, offset: usize) -> (r: Option<Self>)
        ensures
            r.is_some() <==> self@ * two_pow(offset as nat) < two_pow(512),
            r.is_some() ==> r.unwrap()@ == self@ * two_pow(offset as nat),
    {
        match uint_checked_shl::<512, 8>(&self.limbs, offset) {
            Some(limbs) => Some(U512 { limbs }),
            None => None,
        }
    }

    /// Tells whether the number is greater than `other`.
    pub fn gt(&self, other: &Self) -> (r: bool)
        ensures
            r == (self@ > other@),
    {
        uint_gt::<512, 8>(&self.limbs, &other.limbs)
    }

    /// Divides, rounding up. The divisor must not be zero.
    pub fn div_ceil(&self, rhs: &Self) -> (r: Self)
        requires
            rhs@ != 0,
        ensures
            r@ == (self@ + rhs@ - 1) / (rhs@ as int),
    {
        U512 { limbs: uint_div_ceil::<512, 8>(&self.limbs, &rhs.limbs) }
    }
}

} // verus!
