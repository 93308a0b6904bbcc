[package]
name = "s3_reproxy"
version = "0.1.0"
edition = "2021"
rust-version = "1.95"
publish = false

[dependencies]
async-trait = "0.1"
aws-sdk-s3 = { version = "1", features = ["behavior-version-latest"] }
aws-smithy-runtime-api = "1"
aws-smithy-types = { version = "1", features = ["http-body-1-x"] }
bytes = "=1.12.1"
clap = { version = "4", default-features = false, features = ["std", "derive", "env", "help", "usage", "error-context"] }
color-spantrace = "0.2"
dotenvy = "0.15"
futures = "0.3"
http-body = "=1.1.0"
hyper = "=1.12.0"
hyper-util = { version = "0.1", features = ["server-auto", "server-graceful", "service", "tokio"] }
itertools = "=0.13.0"
mongodb = "=3.9.1"
pin-project = "1"
s3s = "0.11"
s3s-aws = "0.11"
serde = { version = "1", features = ["derive"] }
serde_yaml = "0.9"
thiserror = "1"
tokio = { version = "1", features = ["fs", "macros", "net", "rt", "signal", "sync", "time"] }
tower = { version = "0.5", features = ["util"] }
tracing = "0.1"
tracing-error = "0.2"
tracing-subscriber = "0.3"
