[package]
name = "generator"
version = "0.1.0"
edition = "2021"
publish = false

[dependencies]
anyhow = "=1.0.104"
clap = { version = "=4.6.7", features = ["derive"] }
oas3 = { version = "=0.22.0", features = ["yaml-spec"] }
serde_json = { version = "=1.0.154", features = ["preserve_order"] }
serde_yaml_bw = "=2.5.8"
tera = { version = "=1.20.1", default-features = false }
ureq = "=3.5.0"
yaml_serde = "0.10"
