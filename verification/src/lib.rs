//! Verified core of a driver for the BQ41Z50 battery pack manager and fuel gauge.

pub mod temperature;
pub mod wire;
pub mod status;
pub mod error;
pub mod interface;
pub mod gauge;
pub mod sbs;
pub mod transaction;
