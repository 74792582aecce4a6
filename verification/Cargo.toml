[package]
name = "appstream"
version = "0.3.0"
edition = "2021"
publish = false

[dependencies]
chrono = "0.4"
flate2 = "1"
serde = { version = "1", features = ["derive"] }
strum = "0.24"
strum_macros = "0.24"
thiserror = "1"
url = "2"
xmltree = "0.10"
