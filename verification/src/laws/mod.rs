//! What the operations are for, stated of the calls themselves: whatever a call returns, this holds
//! of its arguments and its result.

pub mod calls;
pub mod durations;
pub mod exponential;
pub mod fibonacci;
pub mod gemini;
pub mod openai;
pub mod responses;
pub mod texts;
