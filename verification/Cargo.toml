[package]
name = "pharia_kernel"
version = "0.1.0"
edition = "2021"
publish = false

[dependencies]
lingua = { version = "=1.8.0", default-features = false, features = ["english", "german", "french", "spanish", "italian", "dutch", "portuguese"] }
semver = "=1.0.28"
url = "=2.5.8"
tracing = "=0.1.44"
change-case = "=0.2.0"
serde = { version = "=1.0.229", features = ["derive"] }
serde_json = "=1.0.154"
toml = "=0.9.8"
text-splitter = { version = "=0.33.1", features = ["tokenizers"] }
tokenizers = { version = "=0.23.2", default-features = false, features = ["fancy-regex"] }
opentelemetry = "=0.33.1"
tracing-opentelemetry = "=0.34.0"

[dev-dependencies]
tracing-subscriber = "=0.3.23"
