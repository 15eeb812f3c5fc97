[package]
name = "mesh_topology"
version = "0.1.0"
edition = "2021"
publish = false

[dependencies]
dashmap = "6"
serde_json = "1"
tokio = { version = "1", features = ["rt-multi-thread", "macros"] }
once_cell = "1"
lazy_static = "1"
flutter_rust_bridge = "2"
