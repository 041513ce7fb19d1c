//! Shares a growing pool of fees among a fixed set of beneficiaries in
//! proportion to their shares, and harvests that pool from outside revenue
//! modules.

pub mod constants;
pub mod error;
pub mod event;
pub mod harvest;
pub mod instructions;
pub mod laws;
pub mod math;
pub mod params;
pub mod pubkey;
pub mod relay;
pub mod sources;
pub mod state;
pub mod token;
pub mod wide;
