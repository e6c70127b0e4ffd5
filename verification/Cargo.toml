[package]
name = "the_checker_mater"
version = "0.1.0"
edition = "2021"
publish = false

[dependencies]
hex = "0.4"
rand = "0.8"
anyhow = "1"
thiserror = "1"
futures = "0.3"
lazy_static = "1"
local-ip-address = "*"
tokio = { version = "1", features = ["macros", "net", "rt", "rt-multi-thread", "sync", "time"] }
