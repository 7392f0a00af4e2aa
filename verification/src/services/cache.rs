//! The cache of the latest point of each destination, and the delay of its
//! storing to disk.
pub mod cache_service;
pub mod delay_store;
