pub mod filter;
pub mod s7_parse_bool;
pub mod s7_parse_int;
