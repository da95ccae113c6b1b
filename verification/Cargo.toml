[package]
name = "egui_graph"
version = "0.16.2"
edition = "2021"
publish = false

[dependencies]
egui = { version = "=0.34.3", features = ["serde"] }
serde = { version = "=1.0.229", features = ["derive"] }
