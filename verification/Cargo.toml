[package]
name = "contributions_tracker"
version = "0.1.0"
edition = "2021"
publish = false

[dependencies]
slog = "2"
slog-async = "2"
slog-term = "2"
semver = "1"

[dev-dependencies]
serde_json = "1"
