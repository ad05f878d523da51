[package]
name = "ucas_iclass"
version = "0.1.0"
edition = "2021"
publish = false

[dependencies]
anyhow = "=1.0.104"
argh = "=0.1.19"
chrono = "=0.4.45"
compio = { version = "=0.19.2", features = ["macros"] }
cyper = { version = "=0.9.0", features = ["json"] }
serde = { version = "=1.0.229", features = ["derive"] }
serde_json = "=1.0.151"
thiserror = "=2.0.21"
url = "=2.5.8"
