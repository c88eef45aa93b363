[package]
name = "iobench"
version = "0.1.0"
edition = "2021"
publish = false

[dependencies]
anyhow = "1"
axum = "0.7"
bytes = "1"
clap = "2"
hdfs-native = "*"
hdrs = "*"
jemalloc_pprof = "*"
positioned-io = "0.3"
tikv-jemallocator = "*"
tokio = { version = "1", features = ["full"] }
url = "2"
