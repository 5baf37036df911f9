[package]
name = "trackfetch"
version = "0.1.0"
edition = "2021"
publish = false

[dependencies]
bytes = "=1.12.1"
env_logger = "=0.11.11"
http = "=1.5.0"
infer = "=0.22.0"
librespot = { version = "=0.8.0", default-features = false, features = ["native-tls"] }
lofty = "=0.25.4"
log = "=0.4.34"
tokio = { version = "=1.54.1", features = ["macros", "rt-multi-thread"] }
vergen = { version = "=9.0.6", default-features = false }
