//! Storage providers that ship with the backend.
pub mod json;

pub use json::JsonStorageProviderConfig;
