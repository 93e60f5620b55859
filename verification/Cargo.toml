[package]
name = "cosmicmsg"
version = "0.1.0"
edition = "2021"
publish = false

[dependencies]
png = "=0.18.1"
base64 = "=0.23.1"
clap = { version = "=4.6.7", features = ["derive"] }
serde = { version = "=1.0.229", features = ["derive"] }
serde_json = "=1.0.154"
wayland-client = "=0.31.15"
wayland-protocols = { version = "=0.32.13", features = ["client", "staging"] }
tokio = { version = "=1.54.1", features = ["rt", "rt-multi-thread", "macros", "time"] }
anyhow = "=1.0.104"
enumflags2 = "=0.7.12"
futures-util = "=0.3.34"
reis = { version = "=0.7.1", features = ["tokio"] }
ashpd = { version = "=0.13.13", features = ["remote_desktop", "screencast"] }
rmcp = { version = "=3.8.0", features = ["server", "macros", "transport-io"] }
schemars = "=1.2.3"
cosmic-client-toolkit = "=0.2.0"
cosmic-protocols = "=0.2.0"
