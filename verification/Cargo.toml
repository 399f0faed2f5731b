[package]
name = "memobot"
version = "0.1.0"
edition = "2021"
publish = false

[dependencies]
actix-web = { version = "4", default-features = false }
cfg-if = "1"
constant_time_eq = "0.3"
derive_more = "0.99"
dotenvy = "0.15"
elytra-ping = "*"
error-stack = "0.4"
futures = "0.3"
num_cpus = "1"
sentry = { version = "0.32", default-features = false, features = ["tracing"] }
serde = { version = "1", features = ["derive"] }
tokio = { version = "1", features = ["full"] }
tokio-util = { version = "0.7", features = ["rt"] }
tracing = "0.1"
tracing-subscriber = "0.3"
twilight-gateway = "0.15"
twilight-http = "0.15"
twilight-interactions = "0.15"
twilight-mention = "0.15"
twilight-model = "0.15"
