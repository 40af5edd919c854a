//! Decision-and-invariant core of a multi-agent capital management backend.

pub mod agents;
pub mod api;
pub mod config;
pub mod crypto;
pub mod error;
pub mod fixed;
pub mod sui;
pub mod wasm;
pub mod wide;
pub mod zkp;
