//! A verified buffering core for a small log-shipping pipeline.
//!
//! Messages arrive concurrently from many connections and are funnelled into
//! a single aggregation core that owns the batch. The core appends each
//! arriving message and flushes the batch when it reaches a size threshold or
//! when a recurring timer fires while the batch is non-empty. The surrounding
//! networking (accept loop, per-connection readers, the emission sink) is
//! ordinary async plumbing and lives outside this library; the decisions it
//! carries out are all made here, under contract.

pub mod batching;
pub mod ingest;
