//! External interaction: configuration of the interface providers and the
//! decisions taken when a provider fails to start or exits.
use vstd::prelude::*;

pub mod builtin;

use builtin::HttpInterfaceProviderConfig;
use builtin::http::HttpInterfaceProviderConfigView;

verus! {

/// The configuration of each interface provider; `None` disables it.
#[derive(Debug, PartialEq, Eq)]
pub struct InterfaceProvidersConfig {
    pub http: Option<HttpInterfaceProviderConfig>,
}

/// Marker for the configuration type of an interface provider.
pub trait InterfaceProviderConfig {

}

/// Configuration of the external interfaces.
#[derive(Debug, PartialEq, Eq)]
pub struct InterfaceConfig {
    pub providers: InterfaceProvidersConfig,
}

impl View for InterfaceProvidersConfig {
    type V = Option<HttpInterfaceProviderConfigView>;

    /// The HTTP configuration, when the HTTP interface is enabled.
    open spec fn view(&self) -> Option<HttpInterfaceProviderConfigView> {
        match self.http {
            Some(h) => Some(h@),
            None => None,
        }
    }
}

impl View for InterfaceConfig {
    type V = Option<HttpInterfaceProviderConfigView>;

    open spec fn view(&self) -> Option<HttpInterfaceProviderConfigView> {
        self.providers@
    }
}

impl Clone for InterfaceProvidersConfig {
    fn clone(&self) -> (r: Self)
        ensures
            r@ == self@,
    {
        let http = match &self.http {
            Some(h) => Some(h.clone()),
            None => None,
        };
        InterfaceProvidersConfig { http }
    }
}

impl Clone for InterfaceConfig {
    fn clone(&self) -> (r: Self)
        ensures
            r@ == self@,
    {
        InterfaceConfig { providers: self.providers.clone() }
    }
}

/// What happened to the HTTP interface provider.
#[derive(Debug, PartialEq, Eq)]
pub enum ProviderEvent {
    /// It could not be initialized.
    InitFailed,
    /// It was running and has exited.
    Exited,
}

/// What the backend does about a provider event.
#[derive(Debug, PartialEq, Eq)]
pub enum ProviderAction {
    /// Setting up the interfaces fails with the provider's error.
    Abort,
    /// Setting up the interfaces goes on without this provider.
    Continue,
    /// The whole backend is asked to shut down.
    Terminate,
    /// The exit is only logged.
    Ignore,
}

/// The action for an event of the HTTP provider. Its `fails` flag decides:
/// a failing provider aborts the setup when it cannot start and shuts the
/// backend down when it exits; any other provider is skipped or ignored.
pub fn http_provider_action(config: &HttpInterfaceProviderConfig, event: ProviderEvent) -> (a:
    ProviderAction)
    ensures
        a == match event {
            ProviderEvent::InitFailed => if config.fails {
                ProviderAction::Abort
            } else {
                ProviderAction::Continue
            },
            ProviderEvent::Exited => if config.fails {
                ProviderAction::Terminate
            } else {
                ProviderAction::Ignore
            },
        },
{
    match event {
        ProviderEvent::InitFailed => if config.fails {
            ProviderAction::Abort
        } else {
            ProviderAction::Continue
        },
        ProviderEvent::Exited => if config.fails {
            ProviderAction::Terminate
        } else {
            ProviderAction::Ignore
        },
    }
}

} // verus!
