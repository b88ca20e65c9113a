[package]
name = "espcam"
version = "0.1.0"
edition = "2021"
publish = false

[dependencies]
anyhow = "1"
crossbeam = "0.8"
embassy-executor = { version = "*", features = ["arch-std", "executor-thread"] }
embassy-sync = "*"
embassy-time = { version = "*", features = ["std"] }
esp-idf-svc = "*"
heapless = "0.8"
log = "0.4"
static_cell = "2"
