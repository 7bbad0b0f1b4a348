//! The application configuration and the decisions derived from it: which inference backend to
//! use, how the log level reads, and how much memory and disk the caches may take.
use vstd::prelude::*;

use crate::feature_set::FeatureSet;
use crate::inference::{InferenceConfig, InferenceProvider};
use crate::name_map::NameMap;
use crate::operator_config::NamespaceConfigs;
use crate::text::str_eq;

verus! {

/// The default interval between two looks at the namespaces, in milliseconds: ten seconds.
pub fn namespace_update_interval() -> (ms: u64)
    ensures
        ms == 10_000,
{
    10_000
}

/// The default log level.
pub fn log_level() -> (l: String)
    ensures
        l@ == "info"@,
{
    "info".to_owned()
}

/// An optional configuration string where the empty string counts as absent.
pub fn empty_string_as_none(s: Option<String>) -> (r: Option<String>)
    ensures
        match s {
            Some(x) => if x@.len() == 0 {
                r is None
            } else {
                r == Some(x)
            },
            None => r is None,
        },
{
    match s {
        Some(x) => if x.as_str().unicode_len() == 0 {
            None
        } else {
            Some(x)
        },
        None => None,
    }
}

/// The log filter for a configured log level: `debug` and `trace` apply to the engine only,
/// third-party crates stay at `info`; any other level is taken as the filter it spells.
pub open spec fn spec_log_filter(level: Seq<char>) -> Seq<char> {
    if level == "debug"@ || level == "trace"@ {
        "info,pharia_kernel="@ + level
    } else {
        level
    }
}

/// The log filter for a configured log level.
pub fn log_filter(level: String) -> (f: String)
    ensures
        f@ == spec_log_filter(level@),
{
    if str_eq(level.as_str(), "debug") || str_eq(level.as_str(), "trace") {
        let mut f = "info,pharia_kernel=".to_owned();
        f.append(level.as_str());
        f
    } else {
        level
    }
}

/// Configuration for an OpenAI-compatible inference.
#[derive(Debug, Clone, PartialEq, Eq)]
pub struct OpenAiInference {
    /// Base URL for OpenAI-compatible inference.
    pub url: String,
    /// Token to authenticate with the OpenAI-compatible inference.
    pub token: String,
}

/// Which tokenizers are used for chunking.
#[derive(Debug, Clone, PartialEq, Eq)]
pub enum TokenizersConfig {
    /// Tokenizers are fetched from the Aleph Alpha inference.
    AlephAlpha { inference_url: String },
    /// No tokenizers are available.
    NotConfigured,
}

/// Where compiled skills are cached on disk, and how much space the cache may take, in bytes.
#[derive(Debug, Clone, PartialEq, Eq)]
pub struct WasmtimeCache {
    pub directory: String,
    pub size: u64,
}

/// The configuration of the WebAssembly engine.
#[derive(Debug, Clone, PartialEq, Eq)]
pub struct EngineConfig {
    pub use_pooling_allocator: bool,
    /// The most memory, in bytes, that compiled code kept in memory may take.
    pub max_incremental_cache_size: Option<u64>,
    pub wasmtime_cache: Option<WasmtimeCache>,
}

/// The size of a gibibyte, in bytes.
pub open spec fn gib() -> nat {
    1024 * 1024 * 1024
}

/// The size of a mebibyte, in bytes.
pub open spec fn mib() -> nat {
    1024 * 1024
}

/// The application configuration, as far as the decisions of the engine read it. Sizes are in
/// bytes and intervals in milliseconds.
#[derive(Debug, Clone, PartialEq, Eq)]
pub struct AppConfig {
    pub pharia_ai_feature_set: FeatureSet,
    /// The address the kernel listens on, as `host:port`.
    pub kernel_address: String,
    /// The address the metrics are served on, as `host:port`.
    pub metrics_address: String,
    /// The Aleph Alpha inference; takes precedence over an OpenAI-compatible one.
    pub inference_url: Option<String>,
    pub openai_inference: Option<OpenAiInference>,
    pub document_index_url: Option<String>,
    pub authorization_url: Option<String>,
    /// Namespaces configured by the operator of this installation.
    pub namespaces: NamespaceConfigs,
    pub namespace_update_interval: u64,
    pub log_level: String,
    pub otel_endpoint: Option<String>,
    pub use_pooling_allocator: bool,
    pub memory_request: Option<u64>,
    pub memory_limit: Option<u64>,
    pub wasmtime_cache_dir: Option<String>,
    pub wasmtime_cache_size_request: Option<u64>,
    pub wasmtime_cache_size_limit: Option<u64>,
}

/// The inference backend that a configuration selects.
pub open spec fn spec_inference_provider(c: AppConfig) -> InferenceProvider {
    match c.inference_url {
        Some(url) => InferenceProvider::AlephAlpha { url },
        None => match c.openai_inference {
            Some(o) => InferenceProvider::OpenAi { url: o.url, token: o.token },
            None => InferenceProvider::NotConfigured,
        },
    }
}

impl Default for AppConfig {
    /// The production feature set, listening on all interfaces on port 8081 with metrics on port
    /// 9000, no backends and no namespaces, a look at the namespaces every ten seconds, log level
    /// `info`, no pooling allocator and no limits.
    fn default() -> (c: AppConfig)
        ensures
            c.pharia_ai_feature_set == FeatureSet::Stable(1),
            c.kernel_address@ == "0.0.0.0:8081"@,
            c.metrics_address@ == "0.0.0.0:9000"@,
            c.inference_url is None,
            c.openai_inference is None,
            c.document_index_url is None,
            c.authorization_url is None,
            c.namespaces.well_formed(),
            c.namespaces.entries().len() == 0,
            c.namespace_update_interval == 10_000,
            c.log_level@ == "info"@,
            c.otel_endpoint is None,
            !c.use_pooling_allocator,
            c.memory_request is None,
            c.memory_limit is None,
            c.wasmtime_cache_dir is None,
            c.wasmtime_cache_size_request is None,
            c.wasmtime_cache_size_limit is None,
    {
        AppConfig {
            pharia_ai_feature_set: crate::feature_set::production_feature_set(),
            kernel_address: "0.0.0.0:8081".to_owned(),
            metrics_address: "0.0.0.0:9000".to_owned(),
            inference_url: None,
            openai_inference: None,
            document_index_url: None,
            authorization_url: None,
            namespaces: NameMap::new(),
            namespace_update_interval: namespace_update_interval(),
            log_level: log_level(),
            otel_endpoint: None,
            use_pooling_allocator: false,
            memory_request: None,
            memory_limit: None,
            wasmtime_cache_dir: None,
            wasmtime_cache_size_request: None,
            wasmtime_cache_size_limit: None,
        }
    }
}

impl AppConfig {
    /// The configuration with `pharia_ai_feature_set` set to `value`.
    pub fn with_pharia_ai_feature_set(self, value: FeatureSet) -> (c: AppConfig)
        ensures
            c == (AppConfig { pharia_ai_feature_set: value, ..self }),
    {
        AppConfig { pharia_ai_feature_set: value, ..self }
    }

    /// The configuration with `kernel_address` set to `value`.
    pub fn with_kernel_address(self, value: String) -> (c: AppConfig)
        ensures
            c == (AppConfig { kernel_address: value, ..self }),
    {
        AppConfig { kernel_address: value, ..self }
    }

    /// The configuration with `metrics_address` set to `value`.
    pub fn with_metrics_address(self, value: String) -> (c: AppConfig)
        ensures
            c == (AppConfig { metrics_address: value, ..self }),
    {
        AppConfig { metrics_address: value, ..self }
    }

    /// The configuration with `document_index_url` set to `value`.
    pub fn with_document_index_url(self, value: Option<String>) -> (c: AppConfig)
        ensures
            c == (AppConfig { document_index_url: value, ..self }),
    {
        AppConfig { document_index_url: value, ..self }
    }

    /// The configuration with `authorization_url` set to `value`.
    pub fn with_authorization_url(self, value: Option<String>) -> (c: AppConfig)
        ensures
            c == (AppConfig { authorization_url: value, ..self }),
    {
        AppConfig { authorization_url: value, ..self }
    }

    /// The configuration with `namespace_update_interval` set to `value`.
    pub fn with_namespace_update_interval(self, value: u64) -> (c: AppConfig)
        ensures
            c == (AppConfig { namespace_update_interval: value, ..self }),
    {
        AppConfig { namespace_update_interval: value, ..self }
    }

    /// The configuration with `log_level` set to `value`.
    pub fn with_log_level(self, value: String) -> (c: AppConfig)
        ensures
            c == (AppConfig { log_level: value, ..self }),
    {
        AppConfig { log_level: value, ..self }
    }

    /// The configuration with `otel_endpoint` set to `value`.
    pub fn with_otel_endpoint(self, value: Option<String>) -> (c: AppConfig)
        ensures
            c == (AppConfig { otel_endpoint: value, ..self }),
    {
        AppConfig { otel_endpoint: value, ..self }
    }

    /// The configuration with `use_pooling_allocator` set to `value`.
    pub fn with_pooling_allocator(self, value: bool) -> (c: AppConfig)
        ensures
            c == (AppConfig { use_pooling_allocator: value, ..self }),
    {
        AppConfig { use_pooling_allocator: value, ..self }
    }

    /// The configuration with `memory_request` set to `value`.
    pub fn with_memory_request(self, value: Option<u64>) -> (c: AppConfig)
        ensures
            c == (AppConfig { memory_request: value, ..self }),
    {
        AppConfig { memory_request: value, ..self }
    }

    /// The configuration with `memory_limit` set to `value`.
    pub fn with_memory_limit(self, value: Option<u64>) -> (c: AppConfig)
        ensures
            c == (AppConfig { memory_limit: value, ..self }),
    {
        AppConfig { memory_limit: value, ..self }
    }

    /// The configuration with `wasmtime_cache_dir` set to `value`.
    pub fn with_wasmtime_cache_dir(self, value: Option<String>) -> (c: AppConfig)
        ensures
            c == (AppConfig { wasmtime_cache_dir: value, ..self }),
    {
        AppConfig { wasmtime_cache_dir: value, ..self }
    }

    /// The configuration with `wasmtime_cache_size_request` set to `value`.
    pub fn with_wasmtime_cache_size_request(self, value: Option<u64>) -> (c: AppConfig)
        ensures
            c == (AppConfig { wasmtime_cache_size_request: value, ..self }),
    {
        AppConfig { wasmtime_cache_size_request: value, ..self }
    }

    /// The configuration with `wasmtime_cache_size_limit` set to `value`.
    pub fn with_wasmtime_cache_size_limit(self, value: Option<u64>) -> (c: AppConfig)
        ensures
            c == (AppConfig { wasmtime_cache_size_limit: value, ..self }),
    {
        AppConfig { wasmtime_cache_size_limit: value, ..self }
    }

    /// The configured `pharia_ai_feature_set`.
    pub fn pharia_ai_feature_set(&self) -> (v: FeatureSet)
        ensures
            v == self.pharia_ai_feature_set,
    {
        self.pharia_ai_feature_set
    }

    /// The configured `namespace_update_interval`.
    pub fn namespace_update_interval(&self) -> (v: u64)
        ensures
            v == self.namespace_update_interval,
    {
        self.namespace_update_interval
    }

    /// The configured `use_pooling_allocator`.
    pub fn use_pooling_allocator(&self) -> (v: bool)
        ensures
            v == self.use_pooling_allocator,
    {
        self.use_pooling_allocator
    }

    /// The configured `memory_request`.
    pub fn memory_request(&self) -> (v: Option<u64>)
        ensures
            v == self.memory_request,
    {
        self.memory_request
    }

    /// The configured `memory_limit`.
    pub fn memory_limit(&self) -> (v: Option<u64>)
        ensures
            v == self.memory_limit,
    {
        self.memory_limit
    }

    /// The configured `wasmtime_cache_size_request`.
    pub fn wasmtime_cache_size_request(&self) -> (v: Option<u64>)
        ensures
            v == self.wasmtime_cache_size_request,
    {
        self.wasmtime_cache_size_request
    }

    /// The configured `wasmtime_cache_size_limit`.
    pub fn wasmtime_cache_size_limit(&self) -> (v: Option<u64>)
        ensures
            v == self.wasmtime_cache_size_limit,
    {
        self.wasmtime_cache_size_limit
    }

    /// The configured `kernel_address`.
    pub fn kernel_address(&self) -> (v: &str)
        ensures
            v@ == self.kernel_address@,
    {
        self.kernel_address.as_str()
    }

    /// The configured `metrics_address`.
    pub fn metrics_address(&self) -> (v: &str)
        ensures
            v@ == self.metrics_address@,
    {
        self.metrics_address.as_str()
    }

    /// The configured `log_level`.
    pub fn log_level(&self) -> (v: &str)
        ensures
            v@ == self.log_level@,
    {
        self.log_level.as_str()
    }

    /// The configured `inference_url`, if any.
    pub fn inference_url(&self) -> (v: Option<&str>)
        ensures
            match self.inference_url {
                Some(x) => v matches Some(y) && y@ == x@,
                None => v is None,
            },
    {
        match &self.inference_url {
            Some(x) => Some(x.as_str()),
            None => None,
        }
    }

    /// The configured `document_index_url`, if any.
    pub fn document_index_url(&self) -> (v: Option<&str>)
        ensures
            match self.document_index_url {
                Some(x) => v matches Some(y) && y@ == x@,
                None => v is None,
            },
    {
        match &self.document_index_url {
            Some(x) => Some(x.as_str()),
            None => None,
        }
    }

    /// The configured `authorization_url`, if any.
    pub fn authorization_url(&self) -> (v: Option<&str>)
        ensures
            match self.authorization_url {
                Some(x) => v matches Some(y) && y@ == x@,
                None => v is None,
            },
    {
        match &self.authorization_url {
            Some(x) => Some(x.as_str()),
            None => None,
        }
    }

    /// The configured `otel_endpoint`, if any.
    pub fn otel_endpoint(&self) -> (v: Option<&str>)
        ensures
            match self.otel_endpoint {
                Some(x) => v matches Some(y) && y@ == x@,
                None => v is None,
            },
    {
        match &self.otel_endpoint {
            Some(x) => Some(x.as_str()),
            None => None,
        }
    }

    /// The configured `wasmtime_cache_dir`, if any.
    pub fn wasmtime_cache_dir(&self) -> (v: Option<&str>)
        ensures
            match self.wasmtime_cache_dir {
                Some(x) => v matches Some(y) && y@ == x@,
                None => v is None,
            },
    {
        match &self.wasmtime_cache_dir {
            Some(x) => Some(x.as_str()),
            None => None,
        }
    }

    /// The configured OpenAI-compatible inference, if any.
    pub fn openai_inference(&self) -> (v: Option<&OpenAiInference>)
        ensures
            match self.openai_inference {
                Some(x) => v == Some(&x),
                None => v is None,
            },
    {
        match &self.openai_inference {
            Some(x) => Some(x),
            None => None,
        }
    }

    /// The configured namespaces.
    pub fn namespaces(&self) -> (v: &NamespaceConfigs)
        ensures
            *v == self.namespaces,
    {
        &self.namespaces
    }

    /// The configuration with the Aleph Alpha inference at `url`.
    pub fn with_inference_url(self, url: String) -> (c: AppConfig)
        ensures
            c == (AppConfig { inference_url: Some(url), ..self }),
    {
        AppConfig { inference_url: Some(url), ..self }
    }

    /// The configuration with an OpenAI-compatible inference at `url`, authenticated by `token`.
    pub fn with_openai_inference(self, url: String, token: String) -> (c: AppConfig)
        ensures
            c == (AppConfig { openai_inference: Some(OpenAiInference { url, token }), ..self }),
    {
        AppConfig { openai_inference: Some(OpenAiInference { url, token }), ..self }
    }

    /// The configuration with the given namespaces.
    pub fn with_namespaces(self, namespaces: NamespaceConfigs) -> (c: AppConfig)
        ensures
            c == (AppConfig { namespaces, ..self }),
    {
        AppConfig { namespaces, ..self }
    }

    /// The disk space the cache of compiled skills may take.
    pub open spec fn cache_size(&self) -> Option<u64> {
        match self.wasmtime_cache_size_request {
            Some(r) => Some(r),
            None => self.wasmtime_cache_size_limit,
        }
    }

    /// The inference backend to use: the Aleph Alpha inference where its URL is configured,
    /// else an OpenAI-compatible inference where one is configured, else none.
    pub fn as_inference_config(&self, gen_ai_content_capture: bool) -> (c: InferenceConfig)
        ensures
            c.provider == spec_inference_provider(*self),
            c.gen_ai_content_capture == gen_ai_content_capture,
    {
        let provider = match &self.inference_url {
            Some(url) => InferenceProvider::AlephAlpha { url: url.clone() },
            None => match &self.openai_inference {
                Some(o) => InferenceProvider::OpenAi { url: o.url.clone(), token: o.token.clone() },
                None => InferenceProvider::NotConfigured,
            },
        };
        InferenceConfig { provider, gen_ai_content_capture }
    }

    /// Configure the inference backend; configuring none removes both kinds.
    pub fn with_inference_config(self, provider: InferenceProvider) -> (c: AppConfig)
        ensures
            match provider {
                InferenceProvider::AlephAlpha { url } => c == AppConfig { inference_url: Some(url), ..self },
                InferenceProvider::OpenAi { url, token } => c == AppConfig {
                    openai_inference: Some(OpenAiInference { url, token }),
                    ..self
                },
                InferenceProvider::NotConfigured => c == AppConfig {
                    inference_url: None,
                    openai_inference: None,
                    ..self
                },
            },
    {
        match provider {
            InferenceProvider::AlephAlpha { url } => AppConfig { inference_url: Some(url), ..self },
            InferenceProvider::OpenAi { url, token } => AppConfig {
                openai_inference: Some(OpenAiInference { url, token }),
                ..self
            },
            InferenceProvider::NotConfigured => AppConfig {
                inference_url: None,
                openai_inference: None,
                ..self
            },
        }
    }

    /// The tokenizers: those of the Aleph Alpha inference where it is configured.
    pub fn as_tokenizers_config(&self) -> (t: TokenizersConfig)
        ensures
            match self.inference_url {
                Some(url) => t == TokenizersConfig::AlephAlpha { inference_url: url },
                None => t == TokenizersConfig::NotConfigured,
            },
    {
        match &self.inference_url {
            Some(url) => TokenizersConfig::AlephAlpha { inference_url: url.clone() },
            None => TokenizersConfig::NotConfigured,
        }
    }

    /// The memory the skill cache aims to use: half of the requested memory, else half of the
    /// memory limit, else half of four gibibytes.
    pub fn desired_skill_cache_memory_usage(&self) -> (bytes: u64)
        ensures
            bytes as nat == (match (self.memory_request, self.memory_limit) {
                (Some(r), _) => r as nat,
                (None, Some(l)) => l as nat,
                (None, None) => gib() * 4,
            }) / 2,
    {
        let memory = match self.memory_request {
            Some(r) => r,
            None => match self.memory_limit {
                Some(l) => l,
                None => 4 * 1024 * 1024 * 1024,
            },
        };
        memory / 2
    }

    /// The most memory compiled code kept in memory may take: 128 mebibytes.
    pub fn max_incremental_cache_size(&self) -> (bytes: Option<u64>)
        ensures
            bytes == Some((mib() * 128) as u64),
    {
        Some(128 * 1024 * 1024)
    }

    /// The disk space the cache of compiled skills may take: the requested space, else the
    /// limit.
    pub fn wasmtime_cache_size(&self) -> (bytes: Option<u64>)
        ensures
            bytes == self.cache_size(),
    {
        match self.wasmtime_cache_size_request {
            Some(r) => Some(r),
            None => self.wasmtime_cache_size_limit,
        }
    }

    /// The cache of compiled skills on disk, where both its size and its directory are known.
    pub fn wasmtime_cache(&self) -> (c: Option<WasmtimeCache>)
        ensures
            match (self.cache_size(), self.wasmtime_cache_dir) {
                (Some(size), Some(dir)) => c == Some(WasmtimeCache { directory: dir, size }),
                _ => c is None,
            },
    {
        match (self.wasmtime_cache_size(), &self.wasmtime_cache_dir) {
            (Some(size), Some(dir)) => Some(WasmtimeCache { directory: dir.clone(), size }),
            _ => None,
        }
    }

    /// The configuration of the WebAssembly engine.
    pub fn engine_config(&self) -> (e: EngineConfig)
        ensures
            e.use_pooling_allocator == self.use_pooling_allocator,
            e.max_incremental_cache_size == Some((mib() * 128) as u64),
            match (self.cache_size(), self.wasmtime_cache_dir) {
                (Some(size), Some(dir)) => e.wasmtime_cache == Some(WasmtimeCache { directory: dir, size }),
                _ => e.wasmtime_cache is None,
            },
    {
        EngineConfig {
            use_pooling_allocator: self.use_pooling_allocator,
            max_incremental_cache_size: self.max_incremental_cache_size(),
            wasmtime_cache: self.wasmtime_cache(),
        }
    }
}

} // verus!
