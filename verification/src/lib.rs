//! Core runtime for generated HTTP/JSON API clients.
//!
//! Generated per-service clients delegate to this crate for the work that is
//! shared across services: encoding typed parameters into request URLs,
//! assembling an authorized HTTP request, turning a raw HTTP response into a
//! typed value or a classified error, and iterating paginated list results.
//! The crate performs no I/O itself: callers hand it the token and transport
//! outcomes, and it decides what they mean.

pub mod classify;
pub mod codec;
pub mod error;
pub mod executor;
pub mod iam;
pub mod json;
pub mod location;
pub mod paginator;
pub mod rpc;
pub mod secretmanager;
pub mod views;
