[package]
name = "mesh_adv_write"
version = "0.1.0"
edition = "2021"
publish = false

[dependencies]
rafx = { version = "=0.0.16", default-features = false, features = ["framework"] }
serde = { version = "=1.0.229", features = ["derive"] }
lazy_static = "=1.5.1"
profiling = "=1.0.18"
