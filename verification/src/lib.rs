//! Decision logic of a fault-tolerant payment dispatch pipeline.
//!
//! A round-robin ingress forwards requests to gateways; a gateway publishes
//! payment submissions to a worker process; workers pick a payment processor
//! by its observed health, retry failed attempts with bounded backoff, and
//! hand accepted payments to a batching store.
//!
//! Sockets, HTTP, the database and timers are driven by the program around
//! this library. The library holds the rules: which backend, which queue,
//! which processor, when to retry and when to give up, what to flush.
//!
//! # What is proved, and what is taken on trust
//!
//! Every function here is verified against its contract, with these
//! exceptions, each marked `external_body` and documented where it stands:
//!
//! - [`channel`]: making a tokio channel, and sending and receiving on it
//!   without waiting. Nothing is claimed of what they return.
//! - [`query`]: splitting a query string with `form_urlencoded`, and reading a
//!   date with `time`. Their results are named, not described.
//! - [`io_text`] and [`worker_pool`]: printing an error of `std::io` or of
//!   `serde_json`, and reading the wall clock. Nothing is claimed of what
//!   they return.
//!
//! The types of tokio, `time`, `uuid`, `serde_json` and `std::io` that records
//! carry are opaque to the proofs.

pub mod backoff;
pub mod channel;
pub mod config;
pub mod gateway;
pub mod health_monitor;
pub mod io_text;
pub mod load_balancer;
pub mod payment;
pub mod payment_processor;
pub mod processor_type;
pub mod publisher;
pub mod query;
pub mod receiver;
pub mod retry;
pub mod retry_heap;
pub mod round_robin;
pub mod store;
pub mod text;
pub mod worker_pool;
