use serpentine_backend::metric::storage::builtin::json::Error as StorageError;
use serpentine_backend::metric::storage::builtin::json::{
    JsonMetricMap, JsonMetricValue, JsonStorageProvider, JsonStorageProviderConfig,
};
use serpentine_backend::metric::storage::StorageProvider;
use serpentine_backend::metric::{Metric, MetricValue};
use serpentine_backend::misc_util::{i64_to_decimal, u64_to_decimal};

fn provider() -> JsonStorageProvider {
    JsonStorageProvider::init(JsonStorageProviderConfig {
        path: "metrics.json".to_string(),
        flush_on_write: true,
    })
}

#[test]
fn decimal_rendering_matches_to_string() {
    for v in [0i64, 7, -7, 42, -100, 1234567890, i64::MAX, i64::MIN] {
        assert_eq!(i64_to_decimal(v), v.to_string());
    }
    for n in [0u64, 9, 10, 65535, u64::MAX] {
        assert_eq!(u64_to_decimal(n), n.to_string());
    }
}

#[test]
fn json_value_keeps_variant_and_payload() {
    assert_eq!(JsonMetricValue::from(MetricValue::Integer(-3)), JsonMetricValue::Integer(-3));
    let bits = 1.5f64.to_bits();
    assert_eq!(JsonMetricValue::from(MetricValue::Float(bits)), JsonMetricValue::Float(bits));
    assert_eq!(f64::from_bits(bits), 1.5);
    assert_eq!(
        JsonMetricValue::from(MetricValue::String("on".to_string())),
        JsonMetricValue::String("on".to_string())
    );
}

#[test]
fn new_provider_is_empty() {
    let p = provider();
    assert_eq!(p.path(), "metrics.json");
    assert!(p.metrics().entries().is_empty());
}

#[test]
fn write_stores_single_sample_under_decimal_key() {
    let mut p = provider();
    p.write(5, MetricValue::Integer(10));
    assert_eq!(p.metrics().get("5"), Some(&vec![(5, JsonMetricValue::Integer(10))]));
    p.write(-12, MetricValue::String("x".to_string()));
    assert_eq!(
        p.metrics().get("-12"),
        Some(&vec![(-12, JsonMetricValue::String("x".to_string()))])
    );
    assert_eq!(p.metrics().get("12"), None);
}

#[test]
fn write_replaces_samples_of_same_id() {
    let mut p = provider();
    p.write(1, MetricValue::Integer(1));
    p.write(1, MetricValue::Integer(2));
    assert_eq!(p.metrics().get("1"), Some(&vec![(1, JsonMetricValue::Integer(2))]));
    assert_eq!(p.metrics().entries().len(), 1);
}

#[test]
fn writes_to_distinct_ids_are_kept() {
    let mut p = provider();
    p.write(1, MetricValue::Integer(1));
    p.write(10, MetricValue::Integer(10));
    assert_eq!(p.metrics().get("1"), Some(&vec![(1, JsonMetricValue::Integer(1))]));
    assert_eq!(p.metrics().get("10"), Some(&vec![(10, JsonMetricValue::Integer(10))]));
    assert_eq!(p.metrics().entries().len(), 2);
}

#[test]
fn read_finds_nothing() {
    let mut p = provider();
    p.write(3, MetricValue::Integer(3));
    let r: Option<Metric> = p.read("3", 3);
    assert_eq!(r, None);
}

#[test]
fn load_metrics_prefers_loaded_samples() {
    let mut p = provider();
    p.write(1, MetricValue::Integer(1));
    p.write(2, MetricValue::Integer(2));
    let mut loaded = JsonMetricMap::new();
    loaded.insert("2".to_string(), vec![(20, JsonMetricValue::Integer(20))]);
    loaded.insert("engine.rpm".to_string(), vec![(7, JsonMetricValue::Float(0))]);
    p.load_metrics(loaded);
    assert_eq!(p.metrics().get("1"), Some(&vec![(1, JsonMetricValue::Integer(1))]));
    assert_eq!(p.metrics().get("2"), Some(&vec![(20, JsonMetricValue::Integer(20))]));
    assert_eq!(p.metrics().get("engine.rpm"), Some(&vec![(7, JsonMetricValue::Float(0))]));
    assert_eq!(p.metrics().entries().len(), 3);
}

#[test]
fn metric_map_insert_get_extend() {
    let mut m = JsonMetricMap::new();
    assert_eq!(m.get("a"), None);
    m.insert("a".to_string(), vec![]);
    m.insert("b".to_string(), vec![(1, JsonMetricValue::Integer(1))]);
    m.insert("a".to_string(), vec![(2, JsonMetricValue::Integer(2))]);
    assert_eq!(m.get("a"), Some(&vec![(2, JsonMetricValue::Integer(2))]));
    let mut n = JsonMetricMap::new();
    n.insert("b".to_string(), vec![]);
    n.insert("c".to_string(), vec![(3, JsonMetricValue::Integer(3))]);
    m.extend(n);
    assert_eq!(m.get("b"), Some(&vec![]));
    assert_eq!(m.get("c"), Some(&vec![(3, JsonMetricValue::Integer(3))]));
    assert_eq!(m.entries().len(), 3);
}

#[test]
fn metric_clone_is_equal() {
    let m = Metric { id: "engine.rpm".to_string(), timestamp: 9, value: MetricValue::Integer(800) };
    assert_eq!(m.clone(), m);
}

#[test]
fn flush_on_write_decides_whether_writes_rewrite_the_file() {
    let mut eager = provider();
    assert!(eager.flushes_after_write());
    eager.write(1, MetricValue::Integer(1));
    assert!(eager.flushes_after_write());

    let mut lazy = JsonStorageProvider::init(JsonStorageProviderConfig {
        path: "lazy.json".to_string(),
        flush_on_write: false,
    });
    assert!(!lazy.flushes_after_write());
    lazy.write(2, MetricValue::Integer(2));
    assert!(!lazy.flushes_after_write());
    assert_eq!(lazy.path(), "lazy.json");
    assert_eq!(lazy.metrics().get("2"), Some(&vec![(2, JsonMetricValue::Integer(2))]));
}

#[test]
fn float_values_compare_as_doubles() {
    let pos_zero = MetricValue::Float(0.0f64.to_bits());
    let neg_zero = MetricValue::Float((-0.0f64).to_bits());
    assert_eq!(pos_zero, neg_zero);
    let nan = MetricValue::Float(f64::NAN.to_bits());
    assert_ne!(nan, MetricValue::Float(f64::NAN.to_bits()));
    assert_eq!(MetricValue::Float(1.5f64.to_bits()), MetricValue::Float(1.5f64.to_bits()));
    assert_ne!(MetricValue::Float(1.5f64.to_bits()), MetricValue::Float(2.5f64.to_bits()));
    assert_eq!(
        MetricValue::Float(f64::INFINITY.to_bits()),
        MetricValue::Float(f64::INFINITY.to_bits())
    );
    assert_ne!(MetricValue::Integer(1), MetricValue::Float(1.0f64.to_bits()));
    assert_eq!(MetricValue::String("a".to_string()), MetricValue::String("a".to_string()));
    assert_ne!(MetricValue::Integer(1), MetricValue::Integer(2));
    assert!(serpentine_backend::metric::float_bits_equal(0, 1u64 << 63));
    assert!(!serpentine_backend::metric::float_bits_equal(
        f64::NAN.to_bits(),
        f64::NAN.to_bits()
    ));
}

#[test]
fn storage_error_messages() {
    assert_eq!(StorageError::Read("gone".to_string()).message(), "Failed to read file: gone");
    assert_eq!(
        StorageError::Parse("EOF".to_string()).message(),
        "Failed to parse metrics from JSON: EOF"
    );
    assert_eq!(StorageError::Write("full".to_string()).message(), "Failed to write file: full");
}
