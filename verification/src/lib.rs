//! Enrollment of a one-time-password credential and the counter that goes
//! with it: the activation exchange, the persisted record, and the run that
//! turns a record into the next code.

pub mod activation;
pub mod failure;
pub mod json;
pub mod otp;
pub mod record;
pub mod session;
pub mod text;
