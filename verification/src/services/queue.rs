pub mod queue_recv;
pub mod queue_send;
pub mod queue_send_mpsc_channel;
pub mod queues;
