//! A payment engine that replays a ledger of deposits, withdrawals, disputes,
//! resolutions and chargebacks, and reports the resulting balance of every
//! client account.
//!
//! Amounts are fixed-point integers: one unit is a ten-thousandth of the
//! currency unit, so `2.5` is held as `25000`.
pub mod client;
pub mod engine;
pub mod error;
pub mod laws;
pub mod transaction;

pub use client::Client;
pub use engine::PaymentEngine;
pub use error::Error;
