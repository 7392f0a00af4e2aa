//! PROFINET (S7) devices: parsing of the data blocks read from the device
//! into points.
pub mod parse_point;
pub mod s7;
pub mod profinet_db;
pub mod profinet_client;
