//! An APS3200 auxiliary power unit: the turbine's state machine and the
//! electrical behaviour of the generator it drives.
//!
//! All quantities are fixed-point integers:
//! - time in milliseconds (`u64`),
//! - temperatures and temperature intervals in millionths of a degree Celsius (`i64`),
//! - turbine speed N in millionths of a percent (`u64`, 100% is [`units::FULL_N`]),
//! - potential in millivolts, frequency in millihertz, current in milliamperes.
//!
//! The empirical calibration curves of the unit are floating-point fits and are
//! evaluated by the host; the library takes their values as inputs and decides
//! everything else.
use vstd::prelude::*;

pub mod ambient;
pub mod generator;
pub mod jitter;
pub mod laws;
pub mod thermal;
pub mod turbine;
pub mod units;
