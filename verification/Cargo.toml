[package]
name = "rrdu"
version = "0.0.3"
edition = "2021"
publish = false

[dependencies]
semver = "1"
toml_edit = "*"
noyalib = "*"
serde = { version = "1", features = ["derive"] }
thiserror = "*"
clap = { version = "4", features = ["derive"] }
