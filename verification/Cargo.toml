[package]
name = "rootcell"
version = "0.1.0"
edition = "2021"
publish = false

[dependencies]
getrandom = "0.3"
ring = "0.17"
subtle = "2"
zeroize = "1"
anyhow = "1"
thiserror = "2"
serde = { version = "1", features = ["derive"] }
clap = { version = "4", features = ["derive"] }
tokio = { version = "1", features = ["full"] }
futures = "0.3"
crossterm = { version = "0.28", features = ["event-stream"] }
ratatui = "0.29"
libp2p = { version = "*", features = ["tokio", "gossipsub", "mdns", "noise", "macros", "tcp", "yamux", "quic"] }
