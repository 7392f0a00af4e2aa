//! The client that forwards SQL points to the database API.
pub mod api_client;
pub mod api_query;
