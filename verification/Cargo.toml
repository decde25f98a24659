[package]
name = "updater_core"
version = "0.1.0"
edition = "2021"
publish = false

[dependencies]
semver = "=1.0.28"
self_update = { version = "=1.3.0", default-features = false, features = ["ureq", "github"] }
iced = { version = "0.1", default-features = false }
