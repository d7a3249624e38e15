[package]
name = "helix_ios"
version = "0.1.0"
edition = "2021"
publish = false

[dependencies]
termina = "=0.4.0"
libc = "=0.2.191"
log = "=0.4.35"
tokio = { version = "=1.54.1", features = ["rt-multi-thread", "sync", "macros"] }
futures-util = "=0.3.34"
anyhow = "=1.0.104"
clap = { version = "=4.6.7", features = ["derive"] }
gix = "=0.90.0"
gitoxide-core = { version = "=0.64.0", features = ["blocking-client"] }
prodash = "=31.0.1"
