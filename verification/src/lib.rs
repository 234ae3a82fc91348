//! A minimal HTTP service core: one POST route on the root path that answers
//! with a fixed text payload.
//!
//! The crate holds the request/response logic of the service — which requests
//! the one route matches, and exactly what status, content type and body the
//! handler returns — as verified functions over plain values. The network
//! listener that accepts connections, parses requests and writes the produced
//! reply back to the socket lives outside this crate; it hands the logic a
//! method, a path and a body, or simply renders the payload of
//! [`response::index`] on its one registered route.

pub mod response;
pub mod routing;
pub mod text;
