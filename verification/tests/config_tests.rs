use serpentine_backend::config::builtin::json::{Error, JsonConfigProvider};
use serpentine_backend::config::{Config, ConfigProvider};
use serpentine_backend::interface::builtin::http::Listener;
use serpentine_backend::metric::storage::StorageConfigProvider;

#[test]
fn default_config_stores_metrics_in_metrics_json() {
    let c = Config::default();
    match &c.storage.provider {
        StorageConfigProvider::Json(j) => {
            assert_eq!(j.path, "metrics.json");
            assert!(j.flush_on_write);
        }
    }
}

#[test]
fn default_config_listens_on_local_tcp_port() {
    let c = Config::default();
    let http = c.interface.providers.http.as_ref().expect("http enabled by default");
    assert!(http.fails);
    assert_eq!(http.listeners.len(), 1);
    assert_eq!(
        http.listeners[0],
        Listener::Tcp { addr: "127.0.0.1".to_string(), port: 25089, fails: true }
    );
}

#[test]
fn config_clone_is_equal() {
    let c = Config::default();
    let d = c.clone();
    assert_eq!(c, d);
}

#[test]
fn json_config_provider_gives_back_its_config() {
    let c = Config::default();
    let p = JsonConfigProvider::from_config("/etc/serpentine.json".to_string(), c.clone());
    assert_eq!(p.path(), "/etc/serpentine.json");
    assert_eq!(p.get(), Ok(c.clone()));
    assert_eq!(p.get(), Ok(c));
}

#[test]
fn config_error_messages() {
    assert_eq!(Error::Read("denied".to_string()).message(), "Config file read error: denied");
    assert_eq!(Error::Write("full".to_string()).message(), "Config file write error: full");
    assert_eq!(
        Error::Parse("expected value at line 1 column 1".to_string()).message(),
        "Config parse error: expected value at line 1 column 1"
    );
    assert_eq!(
        Error::NotFound("/nope.json".to_string()).message(),
        "Config file not found at path: /nope.json"
    );
}
