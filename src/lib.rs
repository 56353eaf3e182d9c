//! Work dispatch and solution correlation for a Bitcoin mining daemon that drives
//! USB hashing devices.

pub mod error;
pub mod work;
pub mod job;
pub mod generator;
pub mod icarus;
pub mod erupter;
pub mod engine;
pub mod test_utils;
pub mod stats;
pub mod workhub;
pub mod config;
