//! Subscriptions of receivers on points, and the routing of received
//! points to the subscribed receivers.
pub mod subscriptions;
pub mod subscription_criteria;
pub mod multi_queue;
