//! Exit-decision engine for speculative positions.
//!
//! Prices, liquidity reserves and stakes are integers in the market's smallest
//! units; every threshold is either a whole number or a count of basis points
//! (hundredths of a percent), so each rule is decided by exact arithmetic.
pub mod config;
pub mod discovery;
pub mod lemmas;
pub mod monitor;
pub mod policy;
pub mod position;
pub mod supervisor;
