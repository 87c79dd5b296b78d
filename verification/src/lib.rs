//! A client that fetches batches of requests and does not give up at the
//! first failure: each request is retried with a wait between attempts,
//! requests are released a minimum interval apart, and only so many of them
//! run at once.
//!
//! The library decides and never waits: a retry sequence
//! ([`retry::RetryEngine`]) and the coordinator of a batch
//! ([`batch::Batch`]) are told what happened, with the time on the
//! caller's clock, and answer what to do next. Sending, sleeping and
//! reading the clock are the caller's.

pub mod batch;
pub mod collector;
pub mod error;
pub mod executor;
pub mod outcome;
pub mod outside;
pub mod policy;
pub mod request;
pub mod retry;
pub mod routes;
pub mod scheduler;
pub mod stats;
