//! Verified core of the fault recorder services: point model, device
//! protocol encoding, point parsing, subscriptions and request handling.
pub mod assoc;
pub mod channel;
pub mod clock;
pub mod error_limit;
pub mod maps;
pub mod point;
pub mod point_config;
pub mod text;
pub mod word;
pub mod services;
