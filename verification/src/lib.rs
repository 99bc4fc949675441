//! Coordination core of a federated-learning round: a bounds-checked binary
//! codec for participant messages and the single-task driver that multiplexes
//! message ingestion with round-state queries.

pub mod bytes_util;
pub mod coordinator;
pub mod data;
pub mod error;
pub mod events;
pub mod mask;
pub mod round;
pub mod service;
pub mod signature;
pub mod sum2;
