//! Decoding and acquisition logic for two I2C air-quality sensors: a
//! CO2 / humidity / temperature sensor and a particulate-matter sensor.
pub mod acquisition;
pub mod codec;
pub mod pmsa003i;
pub mod scd30;
