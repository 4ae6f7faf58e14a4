//! Access control and lifecycle rules for per-user byte blobs ("data
//! accounts") and the metadata record that sits at a derived address beside
//! each of them.

pub mod error;
pub mod keys;
pub mod state;
pub mod instruction;
pub mod processor;
