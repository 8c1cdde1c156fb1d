pub mod access;
pub mod handler;
pub mod laws;
pub mod registry;
