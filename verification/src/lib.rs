//! Lifecycle management for microVMs that are run by an external supervisor
//! process and configured over a Unix domain socket.
//!
//! The library holds the decisions only: it validates configuration, lays out
//! the workspace, plans every operation that has to be carried out on the host
//! and judges what the host reports back. Carrying the operations out is left
//! to the caller.

pub mod builder;
pub mod exec;
pub mod executor;
pub mod firecracker;
pub mod machine;
pub mod microvm;
pub mod models;
pub mod path;
pub mod wire;

pub use crate::firecracker::{Firecracker, FirecrackerError, FirecrackerOptions};
