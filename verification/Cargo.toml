[package]
name = "rataplay"
version = "0.1.0"
edition = "2021"
publish = false

[dependencies]
anyhow = "=1.0.104"
arboard = { version = "3", default-features = false }
chrono = { version = "=0.4.45", default-features = false, features = ["clock"] }
clap = { version = "=4.6.7", default-features = false, features = ["std", "derive", "help", "usage"] }
crossterm = "=0.29.0"
directories = "=6.0.0"
fern = { version = "=0.7.1", features = ["colored"] }
image = { version = "=0.25.10", default-features = false, features = ["png", "jpeg"] }
libc = "=0.2.191"
log = "=0.4.35"
ratatui = { version = "=0.30.2", default-features = false, features = ["crossterm"] }
ratatui-image = { version = "=11.1.0", default-features = false }
reqwest = { version = "=0.12.28", default-features = false, features = ["rustls-tls"] }
serde = { version = "=1.0.229", features = ["derive"] }
serde_json = "=1.0.154"
tokio = { version = "=1.54.1", features = ["rt-multi-thread", "macros", "process", "sync", "time", "io-util", "net", "fs"] }
toml = "=0.9.12"
webbrowser = "1"
