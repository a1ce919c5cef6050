[package]
name = "lcars"
version = "0.1.0"
edition = "2021"
publish = false

[dependencies]
eframe = { version = "0.22", default-features = false, features = ["glow"] }
egui = "0.22"
rumqttc = { version = "0.22", default-features = false }
tokio = { version = "1", features = ["rt-multi-thread", "sync"] }
