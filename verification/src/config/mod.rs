//! Backend configuration: its shape, its default, and where it comes from.
use vstd::prelude::*;

pub mod builtin;

use crate::interface::builtin::http::{HttpInterfaceProviderConfigView, Listener};
use crate::interface::builtin::HttpInterfaceProviderConfig;
use crate::interface::{InterfaceConfig, InterfaceProvidersConfig};
use crate::metric::storage::builtin::JsonStorageProviderConfig;
use crate::metric::storage::{StorageConfig, StorageConfigProvider};

verus! {

/// The whole backend configuration.
#[derive(Debug, PartialEq, Eq)]
pub struct Config {
    pub storage: StorageConfig,
    pub interface: InterfaceConfig,
}

/// A configuration with its listeners as a sequence.
pub struct ConfigView {
    pub storage: StorageConfig,
    /// The HTTP interface configuration, when it is enabled.
    pub http: Option<HttpInterfaceProviderConfigView>,
}

impl View for Config {
    type V = ConfigView;

    open spec fn view(&self) -> ConfigView {
        ConfigView { storage: self.storage, http: self.interface@ }
    }
}

impl Clone for Config {
    fn clone(&self) -> (r: Self)
        ensures
            r@ == self@,
    {
        Config { storage: self.storage.clone(), interface: self.interface.clone() }
    }
}

/// Where the backend gets its configuration from.
pub trait ConfigProvider {
    type Error;

    /// The configuration.
    fn get(&self) -> Result<Config, Self::Error>;
}

/// The default configuration: metrics in `metrics.json`, written on every
/// write, and an HTTP interface that listens on TCP `127.0.0.1:25089`; both
/// the listener and the interface are marked as failing.
pub open spec fn is_default_config(c: ConfigView) -> bool {
    &&& c.storage.provider matches StorageConfigProvider::Json(j)
    &&& j.path@ == "metrics.json"@
    &&& j.flush_on_write
    &&& c.http matches Some(h)
    &&& h.fails
    &&& h.listeners.len() == 1
    &&& h.listeners[0] matches Listener::Tcp { addr, port, fails }
    &&& addr@ == "127.0.0.1"@
    &&& port == 25089
    &&& fails
}

impl Default for Config {
    fn default() -> (r: Self)
        ensures
            is_default_config(r@),
    {
        let mut listeners: Vec<Listener> = Vec::new();
        listeners.push(
            Listener::Tcp { addr: String::from_str("127.0.0.1"), port: 25089, fails: true },
        );
        Config {
            storage: StorageConfig {
                provider: StorageConfigProvider::Json(
                    JsonStorageProviderConfig {
                        path: String::from_str("metrics.json"),
                        flush_on_write: true,
                    },
                ),
            },
            interface: InterfaceConfig {
                providers: InterfaceProvidersConfig {
                    http: Some(HttpInterfaceProviderConfig { listeners, fails: true }),
                },
            },
        }
    }
}

} // verus!
