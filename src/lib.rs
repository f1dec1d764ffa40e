//! Dispatch of job batches on a worker pool, with per-job progress frames
//! routed to the live client connection that asked for them.

pub mod frame;
pub mod job;
pub mod registry;
pub mod pool;
pub mod broker;
pub mod connection;
pub mod laws;
pub mod gateway;
