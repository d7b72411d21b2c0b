//! A pull-model metrics exporter core for a Lightning node: scrapers that
//! turn decoded RPC responses into metric samples, an incremental
//! aggregation cache for the paginated payments stream, a collector that
//! runs one scrape pass, and the routing decision of the HTTP surface.
//!
//! The RPC transport, the HTTP server, and the text exposition format live
//! outside this crate; they hand decoded plain values in and carry samples
//! out.

pub mod cache;
pub mod collector;
pub mod laws;
pub mod payment;
pub mod routes;
pub mod rpc;
pub mod sample;
pub mod scrapers;
pub mod strutil;
