//! Fixed-window request rate limiting: identity extraction, the admit/deny
//! decision over a shared counter store, and a model of that store in which
//! the limiter's guarantees are proved.
pub mod identity;
pub mod limiter;
pub mod model;
pub mod api;
pub mod future;
