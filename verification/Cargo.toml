[package]
name = "bubble_flexrouter"
version = "0.1.0"
edition = "2021"
publish = false

[dependencies]
bcrypt = "*"
hex = "*"
sha2 = "*"
rand = "*"
lru = { version = "*", default-features = false }
clap = "2"
futures = "0.3"
futures-util = "0.3"
http = "0.2"
hyper = { version = "0.14", features = ["full"] }
hyper-tls = "0.5"
log = "0.4"
reqwest = { version = "0.11", features = ["json"] }
serde = { version = "1", features = ["derive"] }
serde_json = "1"
stderrlog = "*"
tokio = { version = "1", features = ["full"] }
tower = "*"
trust-dns-resolver = "0.23"
warp = "0.3"
whoami = "*"
