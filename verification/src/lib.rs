//! A verified model of an HTTP key-value gateway's request-processing core:
//! routing, handler semantics over a key-value store, a fixed error taxonomy
//! with its response mapper, and the admission-control, timeout and
//! authorization decisions of the surrounding pipeline.

pub mod config;
pub mod errors;
pub mod handlers;
pub mod pipeline;
pub mod router;
pub mod store;
pub mod util;
