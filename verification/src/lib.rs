//! Zap calculations for liquidity positions on automated market makers.

pub mod constants;
pub mod dlmm_utils;
pub mod error;
pub mod jup_v6_zap;
pub mod ledger;
pub mod liquidity;
pub mod parameters;
pub mod pool;
pub mod price_math;
pub mod processors;
pub mod remaining_accounts;
pub mod rounding;
pub mod safe_math;
pub mod swap;
pub mod token;
pub mod treasury;
pub mod wide;
pub mod zap_in;
pub mod zap_in_damm_v2;
pub mod zap_in_dlmm;
pub mod zap_in_order;
pub mod zap_out;
