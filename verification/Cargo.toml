[package]
name = "ttydo"
version = "0.1.0"
edition = "2021"
publish = false

[dependencies]
anyhow = "=1.0.104"
async-stream = "=0.3.6"
async-trait = "=0.1.92"
clap = { version = "=4.5.61", features = ["derive"] }
directories-next = "=2.0.0"
futures-util = "=0.3.34"
libc = "=0.2.190"
nix = "=0.26.4"
serde = { version = "=1.0.229", features = ["derive"] }
tokio = { version = "=1.53.2", features = ["io-util", "macros", "rt-multi-thread"] }
tokio-fd = "=0.3.0"
tokio-stream = "=0.1.19"
toml = "=0.8.23"
which = "=6.0.3"
