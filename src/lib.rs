//! Chaos-injection invocation harness: a crash-mode flag that can be flipped,
//! and a retry protocol that keeps invoking a remote function until it
//! answers without a failure.

pub mod config;
pub mod crash_flag;
pub mod request;
pub mod retrier;
