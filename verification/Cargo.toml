[package]
name = "themer"
version = "0.1.0"
edition = "2021"
publish = false

[dependencies]
handlebars = "*"
serde_json = "*"
serde_yaml = "*"
home = "*"
clap = { version = "*", features = ["derive"] }
env_logger = "*"
log = "*"
palette = "*"
serde = { version = "*", features = ["derive"] }

[dev-dependencies]
tempfile = "*"
