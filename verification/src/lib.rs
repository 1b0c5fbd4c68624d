//! A verified request handler for an API-Gateway-proxy-shaped event.
//!
//! The library models the inbound request and outbound response as plain
//! values, and proves that the handler always answers a request that carries
//! a path with status 200, empty header maps, a fixed greeting around the
//! path as its text body, and the base64 flag off. A request without a path
//! is reported as the one structured error.

pub mod event;
pub mod handler;
