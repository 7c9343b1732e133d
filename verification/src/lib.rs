//! Request/response lifecycle and service-registration layer of an HTTP
//! server framework core.
//!
//! The crate wraps an inbound request into an exclusively owned handle,
//! pairs produced responses back to their originating request, and lets
//! independently built services (path-matched handler units with guard
//! conditions) be registered into a routing table and dispatched in
//! registration order.

pub mod body;
mod dup;
pub mod error;
pub mod extensions;
pub mod guard;
pub mod http;
pub mod params;
pub mod pattern;
pub mod render;
pub mod request;
pub mod response;
pub mod route;
pub mod service;
