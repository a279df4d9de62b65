//! What the commands decide and compute.

pub mod call;
pub mod check;
pub mod schema;
pub mod verify;
