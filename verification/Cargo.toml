[package]
name = "cyclonedx_bom"
version = "0.1.0"
edition = "2021"
publish = false

[dependencies]
fluent-uri = "0.1"
serde = { version = "1", features = ["derive"] }
serde_json = "1"
spdx = "0.10"
thiserror = "1"
time = { version = "0.3", features = ["formatting", "parsing"] }
xml-rs = "0.8"
