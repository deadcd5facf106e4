[package]
name = "multipad"
version = "0.1.0"
edition = "2021"
publish = false

[dependencies]
clap = { version = "*", features = ["derive"] }
easytcp = "*"
env_logger = "*"
gilrs = "*"
log = "*"
serde = { version = "*", features = ["derive"] }
tokio = { version = "*", features = ["macros", "rt-multi-thread"] }
uinput = "*"
