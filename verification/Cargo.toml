[package]
name = "p2p_web_app"
version = "0.1.0"
edition = "2021"
publish = false

[dependencies]
actix = "=0.13.5"
actix-web = { version = "=4.18.1", default-features = false, features = ["macros"] }
colored = "=3.1.1"
env_logger = { version = "=0.11.11", default-features = false }
futures = "=0.3.34"
libp2p = { version = "=0.56.0", features = ["tokio", "tcp", "noise", "yamux", "kad", "mdns", "identify", "macros"] }
log = "=0.4.35"
md5 = "=0.8.1"
rand = "=0.9.5"
serde = { version = "=1.0.229", features = ["derive"] }
serde_yaml = "=0.9.34"
tokio = { version = "=1.54.1", features = ["rt-multi-thread", "macros", "sync", "time"] }
yansi = "=1.0.1"
