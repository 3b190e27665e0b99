//! Bounded-channel pipelines: a fixed-capacity FIFO handoff between
//! producers and background consumers, a logging pipeline that serializes
//! formatted records to a durable sink, and a fan-out dispatch pipeline
//! that assigns each job to a worker.
pub mod channel;
pub mod dispatch;
pub mod level;
pub mod logging;
pub mod report;
