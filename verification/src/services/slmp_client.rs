//! SLMP (Mitsubishi FX5 Ethernet module) protocol: request packets and
//! parsing of the device's data ranges into points.
pub mod parse_point;
pub mod slmp;
pub mod slmp_client;
pub mod slmp_read;
pub mod slmp_write;
