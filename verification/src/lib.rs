//! Event relay core: bounded FIFO event channels, shared aggregate slots,
//! per-event-kind producer and aggregator logic, and the wire payloads that
//! the aggregators broadcast.
//!
//! Transport (socket connections, HTTP routing), durable storage and process
//! bootstrap are collaborators that live outside this crate; the crate states
//! and proves the behaviour of the aggregation core they drive.

pub mod channel;
pub mod state;
pub mod state2;
pub mod wire;
pub mod aggregator;
pub mod routes;
pub mod persist;
pub mod random;
