pub mod slmp_parse_bool;
pub mod c_slmp_const;
pub mod device_code;
pub mod slmp_packet;
pub mod slmp_cpu_error;
