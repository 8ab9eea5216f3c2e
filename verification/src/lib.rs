//! Retry and backoff policies for HTTP clients, with the clients built on them.
//!
//! The policies decide whether a finished call is tried again and how long to wait first. They
//! hold plain values only: a caller sleeps and sends requests.

pub mod adaptive_concurrency;
pub mod bits;
pub mod duration;
pub mod gemini_client;
pub mod laws;
pub mod openai_client;
pub mod text;
