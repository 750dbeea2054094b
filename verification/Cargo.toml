[package]
name = "step_directives"
version = "0.1.0"
edition = "2021"
publish = false

[dependencies]
regex = "1"
semver = "1"
mdbook = { version = "0.4", default-features = false }
clap = "4"
serde_json = "1"
