//! Momentum entry and trailing-stop exit detection over a stream of trade
//! ticks, with the bookkeeping of open positions and realised trades.
//!
//! Prices, quantities and quote amounts are fixed-point numbers: an unsigned
//! integer counts units of one hundred-millionth, so `150_000_000` stands for
//! `1.5`. All thresholds are decided by exact integer comparison.

pub mod clock;
pub mod console;
pub mod decimal;
pub mod engine;
pub mod feed;
pub mod gateway;
pub mod laws;
pub mod model;
pub mod signal;
pub mod signing;
mod text;
