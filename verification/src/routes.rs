//! What the service decides for each request.

pub mod subscriptions;

pub use subscriptions::FormData;
