//! Configuration providers that ship with the backend.
pub mod json;
