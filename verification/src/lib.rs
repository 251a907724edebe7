//! A benchmarking client for a replicated key-value service.
//!
//! The crate holds the pieces of a load-generation client whose behaviour is
//! worth stating exactly: a simulated clock with drift and periodic
//! resynchronization, a call/return-timestamped operation history for
//! linearizability checking, a request/response ledger with dense command
//! identifiers, and the decision logic of the multi-phase workload run loop.
//! Transport, timers and file output live outside the crate and feed these
//! components plain values.

pub mod client;
pub mod clock;
pub mod clock_config;
pub mod data_collection;
pub mod messages;
pub mod operation_history;
pub mod time_source;
