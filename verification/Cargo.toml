[package]
name = "cr_program_settings"
version = "0.1.0"
edition = "2021"
publish = false

[dependencies]
home = "*"
serde = { version = "*", features = ["derive"] }
toml = "*"

[dev-dependencies]
fs-err = "*"
