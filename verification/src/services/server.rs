//! The TCP server's decisions on its JDS connections: the kind of
//! authentication, the state of a connection, the routing of incoming
//! points and the replies to authentication and subscription requests.
pub mod connections;
pub mod jds_auth;
pub mod jds_cnnection;
pub mod jds_request;
pub mod jds_routes;
pub mod tcp_server;
pub mod tcp_server_cnnection;
