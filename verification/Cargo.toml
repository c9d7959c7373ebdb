[package]
name = "treadmill"
version = "0.1.0"
edition = "2021"
publish = false

[dependencies]
async-task = "4"
crossbeam-deque = "0.8"
fastrand = "1"
num_cpus = "1"
mio = { version = "0.8", features = ["os-poll", "net"] }
futures-lite = "1"
tracing = "0.1"
tracing-subscriber = { version = "0.3", features = ["env-filter"] }
async-io = "1"
async-channel = "1"
crossbeam-channel = "0.5"
once_cell = "1"
hyper = { version = "0.14", features = ["client", "server", "http1"] }
tokio = "1"
trust-dns-resolver = "0.22"
