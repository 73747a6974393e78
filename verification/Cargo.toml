[package]
name = "yclip"
version = "0.1.0"
edition = "2021"
publish = false

[dependencies]
anyhow = "=1.0.104"
arboard = "=3.7.0"
argon2 = "=0.5.3"
clap = { version = "=4.6.7", features = ["derive"] }
cocoa = "0.26"
enum-map = "=2.7.3"
rand = "=0.9.5"
rustc-hash = "=2.1.3"
snow = "=0.9.6"
thiserror = "=2.0.21"
tokio = { version = "=1.54.1", features = ["full"] }
tracing = "=0.1.44"
tracing-subscriber = "=0.3.23"
winapi = { version = "=0.3.9", features = ["winuser", "minwindef"] }
x11rb = { version = "=0.13.2", features = ["xfixes"] }
zstd = "=0.13.4"
