//! A client for the trace.moe reverse image search service.
//!
//! The library holds everything about the exchange that can be stated and
//! proved: how an image is encoded, which request each operation sends, and
//! what each response means. Moving bytes over the network is left to the
//! caller, who hands [`Client::search`] and [`Client::me`] a function that
//! performs one exchange.

pub mod client;
pub mod encoding;
pub mod json;
pub mod types;

pub use client::{Client, Error, Method, Request, Response};
pub use types::Doc;
