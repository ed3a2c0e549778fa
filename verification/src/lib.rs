//! Verified core of a home temperature/humidity station: decoding of DHT11
//! sensor frames and the sensor read protocol, the wire message model and
//! its text rendering, the flash layout of the wifi chip's firmware, the
//! records of the station's database, and the decisions of the probe's
//! network loop and of the server.

pub mod db;
pub mod dht11;
pub mod entropy;
pub mod flash;
pub mod hexstring;
pub mod net;
pub mod server;
pub mod tasks;
pub mod text;
pub mod timelog;
pub mod wire;
