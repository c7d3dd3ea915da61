//! A grid-trading engine: a ladder of evenly spaced price levels, the rules
//! that seed it from a configuration and a market price, and the step
//! function that decides which trade a price observation sets off.

pub mod config;
pub mod engine;
pub mod errors;
pub mod grid;
pub mod preflight;
pub mod price_list;
pub mod report;
pub mod swap_path;
pub mod tactics;
pub mod trade_core;
pub mod uint;
pub mod utils;
