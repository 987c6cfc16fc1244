[package]
name = "ani-dock"
version = "0.1.0"
edition = "2021"
publish = false

[dependencies]
bytes = "=1.12.1"
directories = "=6.0.0"
domparser = "=0.0.7"
futures = "=0.3.34"
indexmap = "=2.14.2"
m3u8-rs = "=6.0.1"
nom = "=7.1.3"
rand = "=0.9.5"
regex = "=1.13.1"
serde = { version = "=1.0.229", features = ["derive"] }
serde_json = "=1.0.154"
thiserror = "=2.0.21"
tokio = { version = "=1.54.1", features = ["fs", "process", "time", "macros", "rt-multi-thread", "io-util"] }
toml = "=1.1.8"
tracing = "=0.1.44"
url = "=2.5.8"
