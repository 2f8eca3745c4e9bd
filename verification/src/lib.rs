//! A verified model of a three-step identity lifecycle against a remote
//! identity provider: account registration, email verification, and
//! credential-based authentication.
//!
//! The remote calls and the terminal prompts live outside this crate; the
//! library holds the data carried between the steps, the requests handed to
//! the remote service, and the driver that sequences the steps and
//! propagates their failures.

pub mod auth;
pub mod config;
pub mod confirm_signup;
pub mod credentials;
pub mod signup;
pub mod workflow;
