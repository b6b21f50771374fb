[package]
name = "tracing-atrace"
version = "0.2.0"
edition = "2021"
publish = false

[dependencies]
libatrace = "*"
tracing = "0.1"
tracing-core = "0.1"
tracing-futures = "0.2"
tracing-subscriber = "0.3"
