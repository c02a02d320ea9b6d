[package]
name = "querylog"
version = "0.1.0"
edition = "2021"
publish = false

[dependencies]
java-properties = "=2.0.0"
encoding_rs = "*"
serde_json = "*"
rdkafka = "*"
tokio = { version = "*", features = ["rt-multi-thread"] }
jni = "*"
tracing = "*"
tracing-subscriber = { version = "*", features = ["env-filter", "json"] }
tracing-appender = "*"
