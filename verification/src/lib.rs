//! Lifecycle management for the ZeroClaw background daemon.
//!
//! The crate decides how the daemon is installed, started, stopped, queried and
//! removed on macOS, Linux and Windows, and writes the service definitions and
//! the supervisor script that this takes. It touches neither files nor other
//! programs: a command is a dialogue in which the library names the next
//! operation and the caller reports how it went.
//!
//! Beside the service commands stand the notes that the program keeps of its
//! failures, the detection of an OpenClaw installation, and the text helpers
//! that all of them share.
pub mod json;
pub mod observability;
pub mod paths;
pub mod resilience;
pub mod service;
pub mod text;
pub mod util;
