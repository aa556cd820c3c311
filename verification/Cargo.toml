[package]
name = "attpc_envoy"
version = "0.1.0"
edition = "2021"
publish = false

[dependencies]
tokio = { version = "=1.53.2", features = ["sync", "rt-multi-thread", "time", "macros"] }
reqwest = { version = "=0.11.27", default-features = false }
serde = { version = "=1.0.229", features = ["derive"] }
serde_yaml = "=0.9.34"
tracing = "=0.1.44"
tracing-subscriber = { version = "=0.3.23", default-features = false, features = ["fmt"] }
human_bytes = "=0.4.3"
eframe = { version = "=0.24.1", default-features = false, features = ["glow"] }
egui_extras = { version = "=0.24.2", default-features = false }
egui_plot = "=0.24.2"
