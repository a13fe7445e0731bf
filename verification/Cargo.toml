[package]
name = "dqcsim"
version = "0.1.0"
edition = "2021"
publish = false

[dependencies]
slog = "2"
num-complex = "*"
serde = { version = "1", features = ["derive"] }
structopt = "*"
crossbeam-channel = "*"
ipc-channel = "*"
lazy_static = "*"
ref_thread_local = "*"
enum_variants = "*"
