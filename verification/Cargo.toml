[package]
name = "pixoo64"
version = "0.1.0"
edition = "2021"
publish = false

[dependencies]
clap = { version = "*", features = ["derive"] }
env_logger = "*"
log = "*"
png = "*"
reqwest = { version = "*", default-features = false, features = ["json"] }
serde = { version = "*", features = ["derive"] }
serde_repr = "*"
tokio = { version = "*", features = ["macros", "rt"] }

[dev-dependencies]
base64 = "*"
