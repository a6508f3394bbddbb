[package]
name = "healthcheck"
version = "0.1.0"
edition = "2021"
publish = false

[dependencies]
postgres = { version = "=0.19.14", features = ["with-uuid-1"] }
mysql = "=28.0.3"
redis = "=1.7.1"
rdkafka = "=0.39.0"
opensearch = "=2.4.0"
rust-s3 = "=0.38.0"
tokio = { version = "=1.53.2", features = ["rt-multi-thread"] }
futures = "=0.3.34"
uuid = { version = "=1.27.0", features = ["v4"] }
serde_json = "=1.0.151"
