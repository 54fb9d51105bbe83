[package]
name = "gas_profiler"
version = "0.1.0"
edition = "2021"
publish = false

[dependencies]
move-core-types = "*"
tracing = "*"
tracing-subscriber = "*"
