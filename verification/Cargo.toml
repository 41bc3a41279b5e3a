[package]
name = "libmm"
version = "0.1.0"
edition = "2021"

[dependencies]
rusqlite = { version = "=0.40.2", features = ["bundled", "fallible_uint"] }
ureq = { version = "=2.12.1", features = ["json"] }
matroska = "=0.30.1"
serde = { version = "=1.0.229", features = ["derive"] }
toml = "=1.1.7"
clap = { version = "=4.6.7", features = ["derive"] }
directories = "=6.0.0"

[dev-dependencies]
tempfile = "=3.27.0"
