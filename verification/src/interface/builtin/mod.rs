//! Interface providers that ship with the backend.
pub mod http;

pub use http::HttpInterfaceProviderConfig;
