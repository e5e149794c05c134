//! Where metrics are stored, and how that is configured.
use vstd::prelude::*;

use crate::metric::{Metric, MetricValue};

pub mod builtin;

use builtin::JsonStorageProviderConfig;

verus! {

/// The storage backend to use, with its configuration.
#[derive(Debug, PartialEq, Eq)]
pub enum StorageConfigProvider {
    Json(JsonStorageProviderConfig),
}

/// Configuration of metric storage.
#[derive(Debug, PartialEq, Eq)]
pub struct StorageConfig {
    pub provider: StorageConfigProvider,
}

impl Clone for StorageConfigProvider {
    fn clone(&self) -> (r: Self)
        ensures
            r == *self,
    {
        match self {
            StorageConfigProvider::Json(c) => StorageConfigProvider::Json(c.clone()),
        }
    }
}

impl Clone for StorageConfig {
    fn clone(&self) -> (r: Self)
        ensures
            r == *self,
    {
        StorageConfig { provider: self.provider.clone() }
    }
}

/// A store of metric samples.
pub trait StorageProvider {
    /// Records a sample of the metric `id`.
    fn write(&mut self, id: i64, value: MetricValue);

    /// Looks up the sample of metric `id` taken at `timestamp`.
    fn read(&self, id: &str, timestamp: i64) -> Option<Metric>;
}

} // verus!
