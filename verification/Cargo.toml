[package]
name = "payment_pipeline"
version = "0.1.0"
edition = "2021"
publish = false

[dependencies]
bytes = "1"
deadpool-postgres = "0.14"
form_urlencoded = "1"
futures-util = "0.3"
http-body-util = "0.1"
hyper = { version = "1", features = ["http1", "client", "server"] }
hyper-util = { version = "0.1", features = ["client-legacy", "http1", "tokio"] }
hyperlocal = "0.9"
rust_decimal = { version = "1", features = ["serde-with-arbitrary-precision", "db-tokio-postgres"] }
serde = { version = "1", features = ["derive"] }
serde_json = { version = "1", features = ["arbitrary_precision"] }
time = { version = "0.3", features = ["serde-well-known", "parsing", "formatting"] }
tokio = { version = "1", features = ["full"] }
tokio-postgres = { version = "0.7", features = ["with-time-0_3", "with-uuid-1"] }
tracing = "0.1"
tracing-subscriber = { version = "0.3", features = ["env-filter", "fmt"] }
uuid = { version = "1", features = ["serde"] }
