//! Retry policies: delay strategies, error classification and the decisions of
//! a retry loop, with their behaviour stated as contracts and proved.

pub mod error;
pub mod retry;
pub mod strategy;
pub mod time;
pub mod trace;

pub use crate::error::RetryError;
pub use crate::retry::{Always, Condition, Driver, Notify, Silent, Step};
pub use crate::strategy::Strategy;
