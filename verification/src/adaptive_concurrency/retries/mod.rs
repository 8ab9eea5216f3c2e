//! When a finished call is tried again, and after what delay.

pub mod exponential;
pub mod fibonacci;
pub mod logic;

pub use exponential::ExponentialBackoff;
pub use exponential::ExponentialBackoffPolicy;
pub use exponential::ExponentialPolicyFuture;
pub use fibonacci::FibonacciRetryPolicy;
pub use fibonacci::RetryPolicyFuture;
pub use fibonacci::ServiceError;
pub use logic::DefaultReqwestRetryLogic;
pub use logic::JitterMode;
pub use logic::RetryAction;
pub use logic::RetryLogic;
