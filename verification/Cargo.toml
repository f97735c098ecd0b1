[package]
name = "fleet_manager"
version = "0.1.0"
edition = "2021"
publish = false

[dependencies]
indicatif = "*"
serde = { version = "*", features = ["derive"] }
serde_derive = "*"
ssh2 = "*"
tokio = { version = "*", features = ["macros", "net", "rt-multi-thread"] }
toml = "*"
