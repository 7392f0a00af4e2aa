//! Kinds of the JDS requests: authentication, the points configuration and
//! the subscription on points.
pub mod request_kind;
pub mod jds_service;
