[package]
name = "cassiopeia_example_runner"
version = "0.1.0"
edition = "2021"
publish = false

[dependencies]
clap = { version = "4", features = ["derive"] }
derive_more = { version = "2", features = ["display", "from_str"] }
humantime = "2"
rustix = { version = "1", features = ["process"] }
serde = { version = "1", features = ["derive"] }
serde_json = "1"
strum = { version = "0.27", features = ["derive"] }
thiserror = "2"
toml = "0.9"
ureq = "3"
url = "2"

[dev-dependencies]
tempfile = "3"
