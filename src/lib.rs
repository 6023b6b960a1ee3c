//! Sensor-side core of a handheld game controller: register encodings for the
//! motion sensor, byte framing for both SPI sensors, sample decoding, the input
//! groups that zip per-axis streams, and the engine's configuration order.

pub mod register;
pub mod ctrl1xl;
pub mod ctrl2g;
pub mod ctrl4c;
pub mod engine;
pub mod imu;
pub mod input;
pub mod touchpad;
pub mod transport;
