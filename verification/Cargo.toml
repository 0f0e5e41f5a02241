[package]
name = "aptos_node_services"
version = "0.1.0"
edition = "2021"
publish = false

[dependencies]
anyhow = "1.0"
bcs = "0.1.4"
futures = "0.3.24"
futures-core = "0.3.25"
redis = { version = "0.22.3", features = ["tokio-comp"] }
serde = { version = "1.0.137", features = ["derive"] }
tokio = { version = "1.21.0", features = ["macros", "rt-multi-thread", "sync", "time"] }
tokio-stream = "0.1.8"
tonic = { version = "0.8.3", default-features = false, features = ["codegen"] }
uuid = { version = "1.0.0", features = ["v4"] }
