[package]
name = "genja_core"
version = "0.1.0"
edition = "2021"
publish = false

[dependencies]
serde = { version = "1", features = ["derive"] }
serde_json = "1"
serde_yaml = "0.9"
config = "*"
ssh2-config = "*"
schemars = "*"
dashmap = "*"
log = "0.4"
async-trait = "0.1"
tokio = { version = "1", features = ["sync", "rt", "macros"] }

[dev-dependencies]
tempfile = "3"
regex = "1"
