//! Ingestion pipeline for token transfer events: an adaptive scanner over a
//! bounded block range, a live subscriber, an event decoder and the
//! normalisation of chain logs into outbound queue messages.
//!
//! The library holds the decisions and the data; opening sockets, awaiting
//! responses and sending to the broker are left to the program around it.

pub mod config;
pub mod decoder;
pub mod encoding;
pub mod indexer;
pub mod log;
pub mod pipeline;
pub mod publisher;
pub mod scan_laws;
pub mod scanner;
pub mod subscriber;
