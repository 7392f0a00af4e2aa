pub mod slmp_client;
pub mod multi_queue;
pub mod retain_point_id;
pub mod queue_name;
pub mod queue;
pub mod queues;
pub mod jds_service;
pub mod server;
pub mod profinet_client;
pub mod api_cient;
pub mod cache;
pub mod diagnosis;
pub mod write_reply;
pub mod device;
pub mod services;
