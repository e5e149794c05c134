//! Storage of metrics in one JSON file: a map from the metric key to the
//! samples stored under it. Reading and writing the file is the caller's.
use vstd::prelude::*;

use crate::metric::{Metric, MetricValue};
use crate::metric::storage::StorageProvider;
use crate::misc_util::{
    decimal_value, i64_to_decimal, int_decimal, lemma_int_decimal_injective,
    lemma_int_decimal_reads_back,
};

verus! {

/// Why the JSON storage file could not be read, parsed or written. Each
/// variant carries the text of the underlying error.
#[derive(Debug, PartialEq, Eq)]
pub enum Error {
    Read(String),
    Parse(String),
    Write(String),
}

/// The text that a storage error shows to a user.
pub open spec fn error_message(e: Error) -> Seq<char> {
    match e {
        Error::Read(m) => "Failed to read file: "@ + m@,
        Error::Parse(m) => "Failed to parse metrics from JSON: "@ + m@,
        Error::Write(m) => "Failed to write file: "@ + m@,
    }
}

/// The text of a storage error ends with the text of its cause, and the
/// three kinds read differently.
pub proof fn lemma_error_message_ends_with_cause(e: Error)
    ensures
        match e {
            Error::Read(m) | Error::Parse(m) | Error::Write(m) => {
                &&& error_message(e).len() > m@.len()
                &&& error_message(e).skip(error_message(e).len() - m@.len()) == m@
            },
        },
        match e {
            Error::Read(_) => error_message(e)[10] == 'r',
            Error::Parse(_) => error_message(e)[10] == 'p',
            Error::Write(_) => error_message(e)[10] == 'w',
        },
{
    reveal_strlit("Failed to read file: ");
    reveal_strlit("Failed to parse metrics from JSON: ");
    reveal_strlit("Failed to write file: ");
    match e {
        Error::Read(m) | Error::Parse(m) | Error::Write(m) => {
            let t = error_message(e);
            assert(t.skip(t.len() - m@.len()) =~= m@);
        },
    }
}

impl Error {
    /// The text shown for this error.
    pub fn message(&self) -> (s: String)
        ensures
            s@ == error_message(*self),
    {
        match self {
            Error::Read(m) => String::from_str("Failed to read file: ").concat(m.as_str()),
            Error::Parse(m) => String::from_str("Failed to parse metrics from JSON: ").concat(
                m.as_str(),
            ),
            Error::Write(m) => String::from_str("Failed to write file: ").concat(m.as_str()),
        }
    }
}

/// Configuration of the JSON storage provider.
#[derive(Debug, PartialEq, Eq)]
pub struct JsonStorageProviderConfig {
    pub path: String,
    /// Whether to write the JSON file every write
    pub flush_on_write: bool,
}

impl Clone for JsonStorageProviderConfig {
    fn clone(&self) -> (r: Self)
        ensures
            r == *self,
    {
        JsonStorageProviderConfig { path: self.path.clone(), flush_on_write: self.flush_on_write }
    }
}

/// A value as it is written to the JSON file.
#[derive(Debug, PartialEq, Eq)]
pub enum JsonMetricValue {
    Integer(i64),
    Float(u64),
    String(String),
}

impl Clone for JsonMetricValue {
    fn clone(&self) -> (r: Self)
        ensures
            r == *self,
    {
        match self {
            JsonMetricValue::Integer(i) => JsonMetricValue::Integer(*i),
            JsonMetricValue::Float(f) => JsonMetricValue::Float(*f),
            JsonMetricValue::String(s) => JsonMetricValue::String(s.clone()),
        }
    }
}

/// The JSON form of a metric value: the same variant with the same payload.
pub open spec fn json_value(value: MetricValue) -> JsonMetricValue {
    match value {
        MetricValue::Integer(i) => JsonMetricValue::Integer(i),
        MetricValue::Float(f) => JsonMetricValue::Float(f),
        MetricValue::String(s) => JsonMetricValue::String(s),
    }
}

impl From<MetricValue> for JsonMetricValue {
    fn from(value: MetricValue) -> (r: Self)
        ensures
            r == json_value(value),
    {
        match value {
            MetricValue::Integer(i) => JsonMetricValue::Integer(i),
            MetricValue::Float(f) => JsonMetricValue::Float(f),
            MetricValue::String(s) => JsonMetricValue::String(s),
        }
    }
}

impl vstd::std_specs::convert::FromSpecImpl<MetricValue> for JsonMetricValue {
    open spec fn obeys_from_spec() -> bool {
        true
    }

    open spec fn from_spec(v: MetricValue) -> JsonMetricValue {
        json_value(v)
    }
}

/// One stored sample: (timestamp, value).
pub type JsonMetric = (i64, JsonMetricValue);

/// One entry of the map: a key and its samples.
pub type JsonMetricEntry = (String, Vec<JsonMetric>);

/// Whether no two entries have the same key.
pub open spec fn keys_distinct(entries: Seq<JsonMetricEntry>) -> bool {
    forall|i: int, j: int|
        0 <= i < entries.len() && 0 <= j < entries.len() && i != j ==> #[trigger] entries[i].0@
            != #[trigger] entries[j].0@
}

/// Whether some entry has the key `k`.
pub open spec fn has_key(entries: Seq<JsonMetricEntry>, k: Seq<char>) -> bool {
    exists|i: int| 0 <= i < entries.len() && #[trigger] entries[i].0@ == k
}

/// The map that a sequence of entries with distinct keys stands for.
pub open spec fn entries_view(entries: Seq<JsonMetricEntry>) -> Map<Seq<char>, Seq<JsonMetric>> {
    Map::new(
        |k: Seq<char>| has_key(entries, k),
        |k: Seq<char>|
            entries[choose|i: int| 0 <= i < entries.len() && #[trigger] entries[i].0@ == k].1@,
    )
}

/// The entry at `i` is what the map holds under its key.
proof fn lemma_entries_view_at(entries: Seq<JsonMetricEntry>, i: int)
    requires
        keys_distinct(entries),
        0 <= i < entries.len(),
    ensures
        entries_view(entries).contains_key(entries[i].0@),
        entries_view(entries)[entries[i].0@] == entries[i].1@,
{
    let k = entries[i].0@;
    assert(has_key(entries, k));
    let c = choose|c: int| 0 <= c < entries.len() && #[trigger] entries[c].0@ == k;
    assert(c == i);
}

/// Appending an entry with a new key adds that key to the map.
proof fn lemma_entries_view_push(entries: Seq<JsonMetricEntry>, e: JsonMetricEntry)
    requires
        keys_distinct(entries),
        !has_key(entries, e.0@),
    ensures
        keys_distinct(entries.push(e)),
        entries_view(entries.push(e)) == entries_view(entries).insert(e.0@, e.1@),
{
    let s = entries.push(e);
    assert(keys_distinct(s)) by {
        assert forall|i: int, j: int|
            0 <= i < s.len() && 0 <= j < s.len() && i != j implies #[trigger] s[i].0@
            != #[trigger] s[j].0@ by {
            if i == entries.len() {
                assert(s[j] == entries[j]);
            } else if j == entries.len() {
                assert(s[i] == entries[i]);
            } else {
                assert(s[i] == entries[i] && s[j] == entries[j]);
            }
        }
    }
    let m = entries_view(entries).insert(e.0@, e.1@);
    assert forall|k: Seq<char>| #[trigger] has_key(s, k) == m.contains_key(k) by {
        if has_key(s, k) {
            let i = choose|i: int| 0 <= i < s.len() && #[trigger] s[i].0@ == k;
            if i < entries.len() {
                assert(s[i] == entries[i]);
                assert(has_key(entries, k));
            }
        }
        if has_key(entries, k) {
            let i = choose|i: int| 0 <= i < entries.len() && #[trigger] entries[i].0@ == k;
            assert(s[i] == entries[i]);
        }
        if k == e.0@ {
            assert(s[entries.len() as int] == e);
        }
    }
    assert forall|k: Seq<char>| #[trigger] m.contains_key(k) implies entries_view(s)[k] == m[k] by {
        if k == e.0@ {
            lemma_entries_view_at(s, entries.len() as int);
            assert(s[entries.len() as int] == e);
        } else {
            let i = choose|i: int| 0 <= i < entries.len() && #[trigger] entries[i].0@ == k;
            lemma_entries_view_at(entries, i);
            lemma_entries_view_at(s, i);
            assert(s[i] == entries[i]);
        }
    }
    assert(entries_view(s) =~= m);
}

/// Replacing the samples of an existing key changes only that key.
proof fn lemma_entries_view_update(entries: Seq<JsonMetricEntry>, i: int, e: JsonMetricEntry)
    requires
        keys_distinct(entries),
        0 <= i < entries.len(),
        entries[i].0@ == e.0@,
    ensures
        keys_distinct(entries.update(i, e)),
        entries_view(entries.update(i, e)) == entries_view(entries).insert(e.0@, e.1@),
{
    let s = entries.update(i, e);
    assert(keys_distinct(s)) by {
        assert forall|a: int, b: int|
            0 <= a < s.len() && 0 <= b < s.len() && a != b implies #[trigger] s[a].0@
            != #[trigger] s[b].0@ by {
            assert(entries[a].0@ != entries[b].0@);
        }
    }
    let m = entries_view(entries).insert(e.0@, e.1@);
    lemma_entries_view_at(entries, i);
    assert forall|k: Seq<char>| #[trigger] has_key(s, k) == m.contains_key(k) by {
        if has_key(s, k) {
            let j = choose|j: int| 0 <= j < s.len() && #[trigger] s[j].0@ == k;
            assert(entries[j].0@ == k);
            assert(has_key(entries, k));
        }
        if has_key(entries, k) {
            let j = choose|j: int| 0 <= j < entries.len() && #[trigger] entries[j].0@ == k;
            assert(s[j].0@ == k);
        }
    }
    assert forall|k: Seq<char>| #[trigger] m.contains_key(k) implies entries_view(s)[k] == m[k] by {
        if k == e.0@ {
            lemma_entries_view_at(s, i);
        } else {
            let j = choose|j: int| 0 <= j < entries.len() && #[trigger] entries[j].0@ == k;
            lemma_entries_view_at(entries, j);
            lemma_entries_view_at(s, j);
        }
    }
    assert(entries_view(s) =~= m);
}

/// The metrics held by the JSON storage: samples per key, each key once.
/// The entries stand in a `Vec` whose keys are kept distinct.
#[derive(Debug)]
pub struct JsonMetricMap {
    entries: Vec<JsonMetricEntry>,
}

impl View for JsonMetricMap {
    type V = Map<Seq<char>, Seq<JsonMetric>>;

    closed spec fn view(&self) -> Map<Seq<char>, Seq<JsonMetric>> {
        entries_view(self.entries@)
    }
}

impl JsonMetricMap {
    #[verifier::type_invariant]
    closed spec fn wf(&self) -> bool {
        keys_distinct(self.entries@)
    }

    /// The entries, each key once, in the order in which the keys first came.
    pub closed spec fn spec_entries(&self) -> Seq<JsonMetricEntry> {
        self.entries@
    }

    /// A map with no metric.
    pub fn new() -> (m: Self)
        ensures
            m@ == Map::<Seq<char>, Seq<JsonMetric>>::empty(),
    {
        let m = JsonMetricMap { entries: Vec::new() };
        assert(m@ =~= Map::<Seq<char>, Seq<JsonMetric>>::empty());
        m
    }

    /// The entries, each key once: they stand for exactly this map.
    pub fn entries(&self) -> (e: &Vec<JsonMetricEntry>)
        ensures
            e@ == self.spec_entries(),
            keys_distinct(e@),
            entries_view(e@) == self@,
    {
        proof {
            use_type_invariant(self);
        }
        &self.entries
    }

    /// The position of the entry with key `key`, if there is one.
    fn find(&self, key: &String) -> (r: Option<usize>)
        ensures
            match r {
                Some(i) => i < self.entries@.len() && self.entries@[i as int].0@ == key@,
                None => !has_key(self.entries@, key@),
            },
    {
        let mut i: usize = 0;
        while i < self.entries.len()
            invariant
                0 <= i <= self.entries@.len(),
                forall|j: int| 0 <= j < i ==> self.entries@[j].0@ != key@,
            decreases self.entries@.len() - i,
        {
            if self.entries[i].0 == *key {
                return Some(i);
            }
            i = i + 1;
        }
        None
    }

    /// The samples stored under `key`.
    pub fn get(&self, key: &str) -> (r: Option<&Vec<JsonMetric>>)
        ensures
            match r {
                Some(v) => self@.contains_key(key@) && v@ == self@[key@],
                None => !self@.contains_key(key@),
            },
    {
        proof {
            use_type_invariant(self);
        }
        let k = String::from_str(key);
        match self.find(&k) {
            Some(i) => {
                proof {
                    lemma_entries_view_at(self.entries@, i as int);
                }
                Some(&self.entries[i].1)
            },
            None => None,
        }
    }

    /// Stores `samples` under `key`, in place of what was stored there.
    pub fn insert(&mut self, key: String, samples: Vec<JsonMetric>)
        ensures
            final(self)@ == old(self)@.insert(key@, samples@),
    {
        proof {
            use_type_invariant(&*self);
        }
        let ghost old_entries = self.entries@;
        let ghost k = key@;
        let ghost v = samples@;
        match self.find(&key) {
            Some(i) => {
                proof {
                    lemma_entries_view_update(old_entries, i as int, (key, samples));
                }
                let mut entries = Vec::new();
                std::mem::swap(&mut entries, &mut self.entries);
                entries.set(i, (key, samples));
                self.entries = entries;
            },
            None => {
                proof {
                    lemma_entries_view_push(old_entries, (key, samples));
                }
                let mut entries = Vec::new();
                std::mem::swap(&mut entries, &mut self.entries);
                entries.push((key, samples));
                self.entries = entries;
            },
        }
    }

    /// Adds every entry of `other`, whose samples replace those stored under
    /// the same key.
    pub fn extend(&mut self, other: JsonMetricMap)
        ensures
            final(self)@ == old(self)@.union_prefer_right(other@),
    {
        proof {
            use_type_invariant(&other);
        }
        let ghost all = other.entries@;
        let mut rest = other.entries;
        let ghost mut done: int = 0;
        while rest.len() > 0
            invariant
                0 <= done <= all.len(),
                rest@ == all.skip(done),
                keys_distinct(all),
                self@ == old(self)@.union_prefer_right(entries_view(all.take(done))),
            decreases rest@.len(),
        {
            let e = rest.remove(0);
            proof {
                assert(e == all[done]);
                let prefix = all.take(done);
                assert(keys_distinct(prefix)) by {
                    assert forall|i: int, j: int|
                        0 <= i < prefix.len() && 0 <= j < prefix.len() && i != j implies #[trigger] prefix[i].0@
                        != #[trigger] prefix[j].0@ by {
                        assert(prefix[i] == all[i] && prefix[j] == all[j]);
                    }
                }
                assert(!has_key(prefix, e.0@)) by {
                    if has_key(prefix, e.0@) {
                        let i = choose|i: int| 0 <= i < prefix.len() && #[trigger] prefix[i].0@ == e.0@;
                        assert(prefix[i] == all[i]);
                        assert(all[i].0@ != all[done].0@);
                    }
                }
                lemma_entries_view_push(prefix, e);
                assert(prefix.push(e) =~= all.take(done + 1));
                done = done + 1;
                assert(rest@ =~= all.skip(done));
            }
            self.insert(e.0, e.1);
            proof {
                assert(self@ =~= old(self)@.union_prefer_right(entries_view(all.take(done))));
            }
        }
        proof {
            assert(all.take(done) =~= all);
        }
    }
}

/// The key under which the samples of metric `id` are stored: `id` in decimal.
pub open spec fn metric_key(id: i64) -> Seq<char> {
    int_decimal(id as int)
}

/// The metrics after a write of `value` for metric `id`: the samples under
/// its key are replaced by the single sample `(id, value)`.
pub open spec fn written(
    metrics: Map<Seq<char>, Seq<JsonMetric>>,
    id: i64,
    value: MetricValue,
) -> Map<Seq<char>, Seq<JsonMetric>> {
    metrics.insert(metric_key(id), seq![(id, json_value(value))])
}

/// Storage of metrics in a JSON file at `path`.
#[derive(Debug)]
pub struct JsonStorageProvider {
    path: String,
    flush_on_write: bool,
    metrics: JsonMetricMap,
}

/// What a JSON storage provider holds: the file's path, whether every write
/// rewrites the file, and the metrics.
pub struct JsonStorageProviderView {
    pub path: Seq<char>,
    pub flush_on_write: bool,
    pub metrics: Map<Seq<char>, Seq<JsonMetric>>,
}

impl View for JsonStorageProvider {
    type V = JsonStorageProviderView;

    closed spec fn view(&self) -> JsonStorageProviderView {
        JsonStorageProviderView {
            path: self.path@,
            flush_on_write: self.flush_on_write,
            metrics: self.metrics@,
        }
    }
}

impl JsonStorageProvider {
    /// A provider for the file named in `config`, holding no metric yet.
    pub fn init(config: JsonStorageProviderConfig) -> (p: Self)
        ensures
            p@.path == config.path@,
            p@.flush_on_write == config.flush_on_write,
            p@.metrics == Map::<Seq<char>, Seq<JsonMetric>>::empty(),
    {
        JsonStorageProvider {
            path: config.path,
            flush_on_write: config.flush_on_write,
            metrics: JsonMetricMap::new(),
        }
    }

    /// Whether the JSON file is to be rewritten after a write: exactly when
    /// the provider was configured to flush on every write.
    pub fn flushes_after_write(&self) -> (b: bool)
        ensures
            b == self@.flush_on_write,
    {
        self.flush_on_write
    }

    /// Adds the metrics read from the file; they replace what is held under
    /// the same keys.
    pub fn load_metrics(&mut self, loaded: JsonMetricMap)
        ensures
            final(self)@.path == old(self)@.path,
            final(self)@.flush_on_write == old(self)@.flush_on_write,
            final(self)@.metrics == old(self)@.metrics.union_prefer_right(loaded@),
    {
        self.metrics.extend(loaded);
    }

    /// The path of the JSON file.
    pub fn path(&self) -> (p: &String)
        ensures
            p@ == self@.path,
    {
        &self.path
    }

    /// The metrics to write to the JSON file.
    pub fn metrics(&self) -> (m: &JsonMetricMap)
        ensures
            m@ == self@.metrics,
    {
        &self.metrics
    }
}

impl StorageProvider for JsonStorageProvider {
    /// Records `value` for metric `id`: under the key `id` in decimal, the
    /// single sample `(id, value)` replaces whatever was stored there. Only
    /// the held metrics change; whether the file is then rewritten is
    /// `flushes_after_write`.
    fn write(&mut self, id: i64, value: MetricValue)
        ensures
            final(self)@.path == old(self)@.path,
            final(self)@.flush_on_write == old(self)@.flush_on_write,
            final(self)@.metrics == written(old(self)@.metrics, id, value),
    {
        let key = i64_to_decimal(id);
        let mut samples: Vec<JsonMetric> = Vec::new();
        samples.push((id, JsonMetricValue::from(value)));
        assert(samples@ =~= seq![(id, json_value(value))]);
        self.metrics.insert(key, samples);
    }

    /// Looking up a sample is not supported by this store: it finds nothing.
    fn read(&self, id: &str, timestamp: i64) -> (r: Option<Metric>)
        ensures
            r is None,
    {
        None
    }
}

/// Converting a metric value to its JSON form keeps its variant and its exact
/// payload: the same integer, the same bits of the double, the same text.
pub proof fn lemma_json_value_keeps_payload(value: MetricValue)
    ensures
        value matches MetricValue::Integer(i) ==> json_value(value) == JsonMetricValue::Integer(i),
        value matches MetricValue::Float(f) ==> json_value(value) == JsonMetricValue::Float(f),
        value matches MetricValue::String(s) ==> json_value(value) == JsonMetricValue::String(s),
{
}

/// After a write of `value` for metric `id`, the samples under the decimal
/// rendering of `id` are exactly the one sample `(id, value)`, the value
/// carried over with its own payload; the key reads back as `id`.
pub proof fn lemma_write_stores_sample(
    metrics: Map<Seq<char>, Seq<JsonMetric>>,
    id: i64,
    value: MetricValue,
)
    ensures
        written(metrics, id, value).contains_key(metric_key(id)),
        written(metrics, id, value)[metric_key(id)].len() == 1,
        written(metrics, id, value)[metric_key(id)][0].0 == id,
        value matches MetricValue::Integer(i) ==> written(metrics, id, value)[metric_key(id)][0].1
            == JsonMetricValue::Integer(i),
        value matches MetricValue::Float(f) ==> written(metrics, id, value)[metric_key(id)][0].1
            == JsonMetricValue::Float(f),
        value matches MetricValue::String(s) ==> written(metrics, id, value)[metric_key(id)][0].1
            == JsonMetricValue::String(s),
        id < 0 ==> metric_key(id)[0] == '-' && decimal_value(metric_key(id).drop_first()) == -id,
        id >= 0 ==> decimal_value(metric_key(id)) == id,
{
    lemma_int_decimal_reads_back(id as int);
}

/// Writes to two different metrics do not disturb each other: after writing
/// `a` and then `b`, the sample of `a` is still there.
pub proof fn lemma_writes_to_distinct_ids_are_kept(
    metrics: Map<Seq<char>, Seq<JsonMetric>>,
    a: i64,
    va: MetricValue,
    b: i64,
    vb: MetricValue,
)
    requires
        a != b,
    ensures
        written(written(metrics, a, va), b, vb)[metric_key(a)] == seq![(a, json_value(va))],
        written(written(metrics, a, va), b, vb)[metric_key(b)] == seq![(b, json_value(vb))],
        written(written(metrics, a, va), b, vb).dom() == metrics.dom().insert(metric_key(a)).insert(
            metric_key(b),
        ),
{
    if metric_key(a) == metric_key(b) {
        lemma_int_decimal_injective(a as int, b as int);
    }
    assert(written(written(metrics, a, va), b, vb).dom() =~= metrics.dom().insert(
        metric_key(a),
    ).insert(metric_key(b)));
}

/// Looking up a key after storing samples under it gives those samples back;
/// the other keys are left as they were.
pub proof fn lemma_get_after_insert(
    metrics: Map<Seq<char>, Seq<JsonMetric>>,
    key: Seq<char>,
    samples: Seq<JsonMetric>,
    other: Seq<char>,
)
    ensures
        metrics.insert(key, samples).contains_key(key),
        metrics.insert(key, samples)[key] == samples,
        other != key ==> (metrics.insert(key, samples).contains_key(other) == metrics.contains_key(
            other,
        )),
        other != key && metrics.contains_key(other) ==> metrics.insert(key, samples)[other]
            == metrics[other],
{
}

/// A write leaves the samples of every other key as they were.
pub proof fn lemma_write_keeps_other_keys(
    metrics: Map<Seq<char>, Seq<JsonMetric>>,
    id: i64,
    value: MetricValue,
    k: Seq<char>,
)
    requires
        k != metric_key(id),
    ensures
        written(metrics, id, value).contains_key(k) == metrics.contains_key(k),
        metrics.contains_key(k) ==> written(metrics, id, value)[k] == metrics[k],
{
}

} // verus!
