[package]
name = "edc_connector_tui"
version = "0.1.0"
edition = "2021"
publish = false

[dependencies]
anyhow = "=1.0.104"
crossterm = "=0.29.0"
dirs-next = "=2.0.0"
edc-connector-client = "=0.9.0"
keyring = "=4.2.0"
ratatui = { version = "=0.30.2", default-features = false, features = ["crossterm"] }
serde = { version = "=1.0.229", features = ["derive"] }
serde_json = "=1.0.151"
tokio = { version = "=1.53.2", features = ["rt", "rt-multi-thread", "macros", "time", "sync"] }
toml = "=1.1.7"
