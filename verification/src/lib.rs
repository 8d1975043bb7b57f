//! Verified core of the Omnifrons desktop shell.

pub mod domain;
pub mod executable_state;
pub mod failures;
pub mod health;
pub mod hex;
pub mod ipc;
pub mod text;
