[package]
name = "audioipc"
version = "0.1.0"
edition = "2021"
publish = false

[dependencies]
mio = { version = "=0.7.14", features = ["os-poll", "os-util", "net"] }
slab = "=0.4.12"
crossbeam = "=0.8.5"
serde = { version = "=1.0.229", features = ["derive"] }
bincode = "=1.3.3"
bytes = "=0.4.12"
iovec = "=0.1.4"
libc = "=0.2.191"
memmap = "=0.7.0"
scopeguard = "=1.2.0"
futures = "=0.3.34"
tokio = { version = "=1.54.1", features = ["net", "io-util", "rt"] }
audio_thread_priority = { version = "=0.38.0", default-features = false }
cubeb-core = { version = "=0.38.0", features = ["gecko-in-tree"] }
cubeb-backend = { version = "=0.38.0", features = ["gecko-in-tree"] }
