//! Trade-settlement engine for a peer-to-pool asset marketplace.
//!
//! A liquidity pool holds an inventory of asset units in an escrow account
//! and sells them to callers at a price set by a pricing curve, subject to
//! authorization and eligibility checks.  This crate verifies the settlement
//! logic: every check, the price and fee arithmetic, the value transfers on
//! the modeled balances, and the pool accounting are proved against the
//! contracts stated here.

pub mod errors;
pub mod fulfill_sell;
pub mod state;
pub mod util;

pub use errors::MMMErrorCode;
pub use fulfill_sell::{handler, FulfillSell, FulfillSellArgs};
