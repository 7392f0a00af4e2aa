pub mod queues;
