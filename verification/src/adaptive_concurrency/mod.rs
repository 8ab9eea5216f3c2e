//! Settings of the concurrency limit, and the retry policies under it.

pub mod http;
pub mod internal_event;
pub mod request;
pub mod reqwest_integration;
pub mod retries;
pub mod settings;

pub use settings::AdaptiveConcurrencySettings;
pub use settings::Error;
