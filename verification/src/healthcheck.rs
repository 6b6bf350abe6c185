//! Health checking of backends: results, counters and rise/fall hysteresis.

pub mod checkers;
pub mod monitor;
pub mod types;
