//! The core of `get`, a command-line tool that fetches one resource over
//! HTTP(S) into a local file while showing live progress.
//!
//! Everything here is pure: the binary performs the network, file, terminal
//! and signal work and asks this library what to do next.

pub mod cli;
pub mod error;
pub mod interrupt;
pub mod outcome;
pub mod progress;
pub mod request;
pub mod target;
pub mod text;
pub mod trace;
pub mod transfer;
