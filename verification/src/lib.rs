//! Deterministic financial and regulatory rule evaluation: late-payment
//! penalties, progressive income tax, vote passage, cash waterfall
//! distribution, and housing-grant eligibility, over defensively validated
//! caller input.

pub mod config;
pub mod decimal;
pub mod engine;
pub mod housing;
pub mod normalize;
pub mod parse;
pub mod penalty;
pub mod render;
pub mod security;
pub mod tax;
pub mod text;
pub mod voting;
pub mod waterfall;
