//! What the zap calculations read of a pool: the current square-root price
//! and the range that the pool covers.
//!
//! A snapshot is a plain copy. Simulations work on snapshots, so that
//! nothing they compute can reach the pool's own account.

use vstd::prelude::*;

verus! {

/// Which token a swap takes in.
#[derive(Debug, Clone, Copy, PartialEq, Eq, Structural)]
pub enum TradeDirection {
    /// Token A goes in, token B comes out.
    AtoB,
    /// Token B goes in, token A comes out.
    BtoA,
}

impl TradeDirection {
    /// The direction of the swap back.
    pub open spec fn opposite_spec(self) -> TradeDirection {
        match self {
            TradeDirection::AtoB => TradeDirection::BtoA,
            TradeDirection::BtoA => TradeDirection::AtoB,
        }
    }

    /// Returns the direction of the swap back.
    pub fn opposite(self) -> (r: TradeDirection)
        ensures
            r == self.opposite_spec(),
            r.opposite_spec() == self,
    {
        match self {
            TradeDirection::AtoB => TradeDirection::BtoA,
            TradeDirection::BtoA => TradeDirection::AtoB,
        }
    }
}

/// A copy of a pool's price state at the time of a computation. Prices are
/// square roots of the price, as fixed-point numbers with 64 fractional bits.
#[derive(Debug, Clone, Copy, PartialEq, Eq, Structural)]
pub struct PoolSnapshot {
    /// The current price.
    pub sqrt_price: u128,
    /// The least price of the pool's range.
    pub sqrt_min_price: u128,
    /// The greatest price of the pool's range.
    pub sqrt_max_price: u128,
    /// The liquidity in the pool.
    pub liquidity: u128,
}

impl PoolSnapshot {
    /// The current price lies within the pool's range.
    pub open spec fn well_formed(self) -> bool {
        self.sqrt_min_price <= self.sqrt_price <= self.sqrt_max_price
    }

    /// Makes a snapshot, if the current price lies within the range.
    pub fn new(sqrt_price: u128, sqrt_min_price: u128, sqrt_max_price: u128, liquidity: u128) -> (r:
        Option<PoolSnapshot>)
        ensures
            r.is_some() <==> sqrt_min_price <= sqrt_price <= sqrt_max_price,
            r.is_some() ==> r.unwrap() == (PoolSnapshot {
                sqrt_price,
                sqrt_min_price,
                sqrt_max_price,
                liquidity,
            }) && r.unwrap().well_formed(),
    {
        if sqrt_min_price <= sqrt_price && sqrt_price <= sqrt_max_price {
            Some(PoolSnapshot { sqrt_price, sqrt_min_price, sqrt_max_price, liquidity })
        } else {
            None
        }
    }

    /// The snapshot after a swap that moved the price to `next_sqrt_price`;
    /// nothing, where that price lies outside the range.
    pub fn with_price(&self, next_sqrt_price: u128) -> (r: Option<PoolSnapshot>)
        ensures
            r.is_some() <==> self.sqrt_min_price <= next_sqrt_price <= self.sqrt_max_price,
            r.is_some() ==> r.unwrap() == (PoolSnapshot {
                sqrt_price: next_sqrt_price,
                ..*self
            }) && r.unwrap().well_formed(),
    {
        PoolSnapshot::new(next_sqrt_price, self.sqrt_min_price, self.sqrt_max_price, self.liquidity)
    }
}

} // verus!
