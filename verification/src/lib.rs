//! A small routed HTTP service core: a route table, a pluggable identity
//! extraction step, and handlers that answer with a fixed status.
//!
//! The crate decides; it performs no I/O. A server hands it the method and
//! the path of a request and sends out the status of the reply it gets back.

pub mod extract;
pub mod handlers;
pub mod identity;
pub mod laws;
pub mod router;
pub mod status;
