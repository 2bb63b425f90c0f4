[package]
name = "swarmy_core"
version = "0.1.0"
edition = "2021"
publish = false

[dependencies]
chrono = { version = "=0.4.45", default-features = false, features = ["std", "clock"] }
si-scale = "=0.3.1"
serde = { version = "=1.0.229", features = ["derive"] }
serde_json = "=1.0.154"
thiserror = "=2.0.21"
log = "=0.4.34"
polars = { version = "=0.55.2", default-features = false, features = ["lazy", "ipc", "parquet", "json", "strings", "dtype-datetime", "temporal"] }
s2protocol = { version = "=3.5.10", default-features = false }
