[package]
name = "mediaframe"
version = "0.1.0"
edition = "2021"
publish = false

[dependencies]
mediatime = "*"
ingraph = { version = "*", default-features = false }
thiserror = "*"
serde = { version = "*", features = ["derive"] }
smol_str = "*"

[dev-dependencies]
serde_json = "*"
