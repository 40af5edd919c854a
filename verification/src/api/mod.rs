//! What the API serves.

pub mod handlers;
