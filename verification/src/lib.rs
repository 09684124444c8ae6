//! Verified core of an algorithmic trading platform.
//!
//! The library turns candle history into trade signals, gates and sizes
//! those signals under risk rules, and drives orders through their
//! lifecycle against an exchange adapter. All fractional quantities
//! (prices, quantities, percentages, signal strengths) are fixed-point
//! integers scaled by [`fixed::SCALE`].

pub mod api;
pub mod auth;
pub mod fixed;
pub mod market;
pub mod models;
pub mod order;
pub mod repo;
pub mod risk;
pub mod strategy;
pub mod util;
