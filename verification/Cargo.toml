[package]
name = "deno_kv_rs"
version = "0.1.0"
edition = "2021"
publish = false

[dependencies]
anyhow = "=1.0.104"
bytes = "=1.12.1"
deno_core = "=0.413.0"
prost = "=0.14.4"
serde = { version = "=1.0.229", features = ["derive"] }
serde_json = "=1.0.154"
tendermint = "=0.40.4"
tendermint-abci = { version = "=0.40.4", features = ["client"] }
tendermint-proto = "=0.40.4"
tokio = { version = "=1.54.1", features = ["macros", "rt-multi-thread", "sync"] }
tracing = "=0.1.44"
tracing-subscriber = "=0.3.23"
