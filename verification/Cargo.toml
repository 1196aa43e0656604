[package]
name = "sonata"
version = "0.1.0"
edition = "2021"
publish = false

[dependencies]
async-trait = "0.1"
discord-rich-presence = "*"
futures-util = "0.3"
serde = { version = "1", features = ["derive"] }
serde_json = "1"
thiserror = "*"
tokio = { version = "1", features = ["rt-multi-thread", "macros", "io-std", "io-util", "sync", "time"] }
toml = "*"
tracing = "0.1"
tracing-subscriber = "0.3"
zbus = { version = "5", default-features = false, features = ["tokio"] }
