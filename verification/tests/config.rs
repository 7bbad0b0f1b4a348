use pharia_kernel::config::{
    empty_string_as_none, log_filter, log_level, namespace_update_interval, AppConfig,
    TokenizersConfig, WasmtimeCache,
};
use pharia_kernel::inference::InferenceProvider;
use pharia_kernel::operator_config::{NamespaceConfig, OperatorConfig, Registry};

#[test]
fn deserialize_config_with_file_registry() {
    let config = OperatorConfig::local();
    assert!(config.namespaces.contains_key("local"));
}

#[test]
fn local_operator_config_reads_skills_from_files() {
    let config = OperatorConfig::local();
    assert_eq!(config.namespaces.len(), 1);
    assert_eq!(
        config.namespaces.get("local"),
        Some(&NamespaceConfig::TeamOwned {
            config_url: "file://namespace.toml".to_owned(),
            config_access_token_env_var: None,
            registry: Registry::File {
                path: "skills".to_owned()
            },
        })
    );
    assert_eq!(OperatorConfig::empty().namespaces.len(), 0);
}

#[test]
fn aleph_alpha_inference_is_default() {
    let app_config = AppConfig::default()
        .with_inference_url("https://inference-api.product.pharia.com".to_owned())
        .with_openai_inference("https://openai.com".to_owned(), "sk-1234567890".to_owned());

    let config = app_config.as_inference_config(false);

    assert!(matches!(
        config.provider,
        InferenceProvider::AlephAlpha { url } if url == "https://inference-api.product.pharia.com"
    ));
}

#[test]
fn openai_inference_is_used_without_aleph_alpha() {
    let app_config =
        AppConfig::default().with_openai_inference("https://openai.com".to_owned(), "sk-1".to_owned());

    let config = app_config.as_inference_config(true);

    assert_eq!(
        config.provider,
        InferenceProvider::OpenAi {
            url: "https://openai.com".to_owned(),
            token: "sk-1".to_owned()
        }
    );
    assert!(config.gen_ai_content_capture);
    assert_eq!(
        AppConfig::default().as_inference_config(false).provider,
        InferenceProvider::NotConfigured
    );
}

#[test]
fn default_app_config() {
    let config = AppConfig::default();
    assert_eq!(config.kernel_address, "0.0.0.0:8081");
    assert_eq!(config.metrics_address, "0.0.0.0:9000");
    assert!(config.inference_url.is_none());
    assert!(config.document_index_url.is_none());
    assert!(config.authorization_url.is_none());
    assert_eq!(config.namespace_update_interval, 10_000);
    assert_eq!(config.log_level, "info");
    assert!(config.otel_endpoint.is_none());
    assert!(!config.use_pooling_allocator);
    assert_eq!(config.namespaces.len(), 0);
    assert_eq!(namespace_update_interval(), 10_000);
    assert_eq!(log_level(), "info");
}

#[test]
fn setting_and_removing_the_inference() {
    let config = AppConfig::default().with_inference_config(InferenceProvider::AlephAlpha {
        url: "https://a".to_owned(),
    });
    assert_eq!(config.inference_url.as_deref(), Some("https://a"));
    assert_eq!(
        config.as_tokenizers_config(),
        TokenizersConfig::AlephAlpha {
            inference_url: "https://a".to_owned()
        }
    );
    let config = config.with_inference_config(InferenceProvider::NotConfigured);
    assert!(config.inference_url.is_none());
    assert!(config.openai_inference.is_none());
    assert_eq!(config.as_tokenizers_config(), TokenizersConfig::NotConfigured);
}

#[test]
fn skill_cache_takes_half_of_the_memory() {
    let mut config = AppConfig::default();
    assert_eq!(config.desired_skill_cache_memory_usage(), 2 * 1024 * 1024 * 1024);
    config.memory_limit = Some(1000);
    assert_eq!(config.desired_skill_cache_memory_usage(), 500);
    config.memory_request = Some(301);
    assert_eq!(config.desired_skill_cache_memory_usage(), 150);
    assert_eq!(config.max_incremental_cache_size(), Some(128 * 1024 * 1024));
}

#[test]
fn wasmtime_cache_needs_directory_and_size() {
    let mut config = AppConfig::default();
    assert_eq!(config.wasmtime_cache(), None);
    config.wasmtime_cache_dir = Some("/cache".to_owned());
    assert_eq!(config.wasmtime_cache(), None);
    config.wasmtime_cache_size_limit = Some(20);
    assert_eq!(
        config.wasmtime_cache(),
        Some(WasmtimeCache {
            directory: "/cache".to_owned(),
            size: 20
        })
    );
    config.wasmtime_cache_size_request = Some(10);
    assert_eq!(config.wasmtime_cache_size(), Some(10));
    let engine = config.engine_config();
    assert_eq!(
        engine.wasmtime_cache,
        Some(WasmtimeCache {
            directory: "/cache".to_owned(),
            size: 10
        })
    );
    assert_eq!(engine.max_incremental_cache_size, Some(128 * 1024 * 1024));
    assert!(!engine.use_pooling_allocator);
}

#[test]
fn log_filter_scopes_verbose_levels_to_the_kernel() {
    assert_eq!(log_filter("debug".to_owned()), "info,pharia_kernel=debug");
    assert_eq!(log_filter("trace".to_owned()), "info,pharia_kernel=trace");
    assert_eq!(log_filter("warn".to_owned()), "warn");
    assert_eq!(log_filter("dummy".to_owned()), "dummy");
}

#[test]
fn empty_strings_count_as_absent() {
    assert_eq!(empty_string_as_none(Some(String::new())), None);
    assert_eq!(
        empty_string_as_none(Some("x".to_owned())),
        Some("x".to_owned())
    );
    assert_eq!(empty_string_as_none(None), None);
}
