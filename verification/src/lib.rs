//! Flowgate: an adaptive threshold rate controller for scored predictions.
//!
//! Scores and thresholds are IEEE-754 binary64 values; the library carries
//! them as their bit patterns (`ieee::F64Bits`) and compares them exactly as
//! the hardware does, so that the decision logic can be verified.
pub mod ieee;
pub mod buffer;
pub mod percentile;
pub mod text;
pub mod config;
pub mod metrics;
pub mod threshold;
pub mod drain;
pub mod producer;
pub mod dashboard;
pub mod exposition;
pub mod pid;
