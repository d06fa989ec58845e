[package]
name = "chain_indexer"
version = "0.1.0"
edition = "2021"
publish = false

[dependencies]
anyhow = "1"
axum = "*"
axum-macros = "*"
axum-trace-id = "*"
borsh = "=1.8.1"
clap = { version = "4", features = ["derive", "env"] }
clap-verbosity-flag = "*"
deadpool-diesel = { version = "*", features = ["postgres"] }
diesel = { version = "2", features = ["postgres", "serde_json"] }
diesel-derive-enum = { version = "*", features = ["postgres"] }
futures = "0.3"
lazy_static = "1"
serde = { version = "1", features = ["derive"] }
serde_json = "=1.0.154"
subtle-encoding = "=0.5.1"
tendermint-rpc = { version = "*", features = ["http-client"] }
tokio = { version = "1", features = ["full"] }
tower = { version = "*", features = ["util", "timeout", "load-shed", "limit", "buffer"] }
tower-http = { version = "*", features = ["cors", "trace"] }
tracing = "0.1"
tracing-subscriber = "0.3"
