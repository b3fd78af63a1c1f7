//! Service-discovery and metrics logic of an exporter for the SRS media server: the
//! configuration and its defaults, the requests that register SRS with Nacos and keep it
//! registered, and the Prometheus gauges fed from the SRS API.

pub mod config;
pub mod error;
pub mod json_text;
pub mod metrics;
pub mod nacos;
pub mod percent;
pub mod query_url;
pub mod text;

pub use crate::config::{AppConfig, ConfigError, ConfigSections, NacosConfig, SrsConfig, SrsExporterConfig};
pub use crate::error::AppError;
pub use crate::metrics::{
    FloatGaugeHandle, MetricCollector, MetricError, MetricRegistry, ResourceUsage, StreamCollector, SummaryCollector,
};
pub use crate::nacos::{NacosClient, PingPong};

use vstd::prelude::*;

verus! {

/// The configuration file read when no other is named.
pub const DEFAULT_CONFIG: &'static str = "config.toml";

} // verus!
