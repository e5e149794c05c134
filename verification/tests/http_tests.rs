use serpentine_backend::interface::builtin::http::feature::FeatureSupport;
use serpentine_backend::interface::builtin::http::{
    tcp_bind_address, BackendInformationResponse, Error, HttpInterfaceProviderConfig, Listener,
    ListenerOutcome, ListenerSetup,
};
use serpentine_backend::interface::{http_provider_action, ProviderAction, ProviderEvent};

fn tcp(fails: bool) -> Listener {
    Listener::Tcp { addr: "127.0.0.1".to_string(), port: 8080, fails }
}

fn unix(fails: bool) -> Listener {
    Listener::Unix { path: "/tmp/serpentine.sock".to_string(), fails }
}

#[test]
fn tcp_bind_address_joins_address_and_port() {
    assert_eq!(tcp_bind_address(&"127.0.0.1".to_string(), 25089), "127.0.0.1:25089");
    assert_eq!(tcp_bind_address(&"0.0.0.0".to_string(), 0), "0.0.0.0:0");
    assert_eq!(tcp_bind_address(&"::1".to_string(), 65535), "::1:65535");
}

#[test]
fn setup_counts_listening_sockets() {
    let mut s = ListenerSetup::new();
    assert_eq!(s.record(&tcp(true), ListenerOutcome::Listening), Ok(()));
    assert_eq!(s.record(&unix(false), ListenerOutcome::Listening), Ok(()));
    assert_eq!(s.registered(), 2);
    assert_eq!(s.finish(), Ok(2));
}

#[test]
fn setup_skips_non_failing_listener_that_cannot_bind() {
    let mut s = ListenerSetup::new();
    assert_eq!(s.record(&tcp(false), ListenerOutcome::BindFailed("in use".to_string())), Ok(()));
    assert_eq!(s.record(&unix(true), ListenerOutcome::Listening), Ok(()));
    assert_eq!(s.finish(), Ok(1));
}

#[test]
fn setup_stops_when_failing_tcp_listener_cannot_bind() {
    let mut s = ListenerSetup::new();
    assert_eq!(
        s.record(&tcp(true), ListenerOutcome::BindFailed("Address already in use".to_string())),
        Err(Error::TcpBind("Address already in use".to_string()))
    );
    assert_eq!(s.registered(), 0);
}

#[test]
fn setup_stops_when_failing_unix_listener_cannot_bind() {
    let mut s = ListenerSetup::new();
    assert_eq!(s.record(&tcp(true), ListenerOutcome::Listening), Ok(()));
    assert_eq!(
        s.record(&unix(true), ListenerOutcome::BindFailed("denied".to_string())),
        Err(Error::UnixBind("denied".to_string()))
    );
    assert_eq!(s.registered(), 1);
}

#[test]
fn setup_stops_when_server_refuses_to_listen_even_if_not_failing() {
    let mut s = ListenerSetup::new();
    assert_eq!(
        s.record(&tcp(false), ListenerOutcome::ListenFailed("bad socket".to_string())),
        Err(Error::HttpServer("bad socket".to_string()))
    );
}

#[test]
fn setup_without_any_listener_fails() {
    let s = ListenerSetup::new();
    assert_eq!(s.finish(), Err(Error::HttpServer("No listeners registered".to_string())));
    let mut t = ListenerSetup::new();
    assert_eq!(t.record(&unix(false), ListenerOutcome::BindFailed("x".to_string())), Ok(()));
    assert_eq!(t.finish(), Err(Error::HttpServer("No listeners registered".to_string())));
}

#[test]
fn http_error_messages() {
    assert_eq!(Error::TcpBind("in use".to_string()).message(), "TCP bind error: in use");
    assert_eq!(Error::UnixBind("denied".to_string()).message(), "Unix socket bind error: denied");
    assert_eq!(
        Error::HttpServer("No listeners registered".to_string()).message(),
        "HTTP server error: No listeners registered"
    );
}

#[test]
fn listener_fails_flag_and_bind_error() {
    assert!(tcp(true).fails());
    assert!(!unix(false).fails());
    assert_eq!(tcp(false).bind_error("e".to_string()), Error::TcpBind("e".to_string()));
    assert_eq!(unix(false).bind_error("e".to_string()), Error::UnixBind("e".to_string()));
}

#[test]
fn provider_actions_follow_fails_flag() {
    let failing = HttpInterfaceProviderConfig { listeners: vec![tcp(true)], fails: true };
    let lenient = HttpInterfaceProviderConfig { listeners: vec![], fails: false };
    assert_eq!(http_provider_action(&failing, ProviderEvent::InitFailed), ProviderAction::Abort);
    assert_eq!(http_provider_action(&failing, ProviderEvent::Exited), ProviderAction::Terminate);
    assert_eq!(http_provider_action(&lenient, ProviderEvent::InitFailed), ProviderAction::Continue);
    assert_eq!(http_provider_action(&lenient, ProviderEvent::Exited), ProviderAction::Ignore);
}

#[test]
fn http_config_clone_is_equal() {
    let c = HttpInterfaceProviderConfig { listeners: vec![tcp(true), unix(false)], fails: false };
    assert_eq!(c.clone(), c);
}

#[test]
fn feature_support_registers_in_order() {
    let mut f = FeatureSupport::new();
    assert!(f.get().is_empty());
    assert!(!f.supports("test"));
    f.register("test".to_string());
    f.register("metrics".to_string());
    assert!(f.supports("test"));
    assert!(f.supports("metrics"));
    assert!(!f.supports("tes"));
    assert_eq!(f.get(), vec!["test".to_string(), "metrics".to_string()]);
}

#[test]
fn feature_support_keeps_duplicates() {
    let mut f = FeatureSupport::new();
    f.register("a".to_string());
    f.register("a".to_string());
    assert_eq!(f.get(), vec!["a".to_string(), "a".to_string()]);
}

#[test]
fn backend_information_lists_features() {
    let mut f = FeatureSupport::new();
    f.register("test".to_string());
    let r = BackendInformationResponse::get(&f, "serpentine_backend", "0.1.0");
    assert_eq!(r.name, "serpentine_backend");
    assert_eq!(r.version, "0.1.0");
    assert_eq!(r.features, vec!["test".to_string()]);
}

#[test]
fn builtin_features_hold_test() {
    let f = FeatureSupport::with_builtin_features();
    assert_eq!(f.get(), vec!["test".to_string()]);
    assert!(f.supports("test"));
}
