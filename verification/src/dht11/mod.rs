//! DHT11 sensor support: bit decoding, the read protocol, the pulse capture,
//! and the reading types produced by the probe firmwares.

pub mod basic;
pub mod bits;
pub mod capture;
pub mod reader;
pub mod typed;
