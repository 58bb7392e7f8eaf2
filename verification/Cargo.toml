[package]
name = "fastly_php_runtime"
version = "0.1.0"
edition = "2021"
publish = false

[dependencies]
fastly = "0.9"
bytes = "1"
anyhow = "1"
lazy_static = "1"
once_cell = "1"
serde_variant = "0.1"
ext-php-rs = "0.10"
glob = "0.3"
serde = "1"
serde_derive = "1"
serde_json = "1"
tokio = { version = "1", features = ["rt-multi-thread", "macros"] }
reqwest = { version = "0.11", default-features = false }
