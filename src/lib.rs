//! A registry that binds decentralized identities to authentication material,
//! content-addressed file pointers and per-file access rights.
pub mod bytes;
pub mod table;
pub mod model;
pub mod registry;
pub mod laws;

pub use registry::{Error, SamOs};
