[package]
name = "zeta_node"
version = "0.1.0"
edition = "2021"
publish = false

[dependencies]
uuid = { version = "=1.27.0", features = ["v4"] }
chrono = "=0.4.45"
serde = { version = "*", features = ["derive"] }
serde_json = "*"
tokio = { version = "*", features = ["full"] }
warp = { version = "=0.4.3", features = ["server", "websocket"] }
futures-util = { version = "*", features = ["sink"] }
libp2p = { version = "=0.56.0", features = ["tokio", "tcp", "noise", "yamux", "gossipsub", "mdns", "kad", "identify", "ping", "macros"] }
tracing = "*"
tracing-subscriber = { version = "*", features = ["fmt"] }
