[package]
name = "registry_deps"
version = "0.1.0"
edition = "2021"
publish = false

[dependencies]
semver = "1"
diesel = { version = "2", features = ["postgres"] }
postgres = "0.19"
