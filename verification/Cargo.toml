[package]
name = "clr_profiler"
version = "0.1.0"
edition = "2021"
publish = false

[dependencies]
uuid = "*"
tokio = { version = "1", features = ["rt-multi-thread"] }
tonic = "*"
perf_monitor = "*"
