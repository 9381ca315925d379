[package]
name = "conic_launcher"
version = "0.1.0"
edition = "2021"
publish = false

[dependencies]
base64 = "0.22"
num_cpus = "1"
regex = "1"
sha1_smol = "1"
sha2 = "0.10"
url = "2"
uuid = "1"
futures = "0.3"
log = "0.4"
os_info = "3"
rayon = "1"
reqwest = { version = "0.12", default-features = false, features = ["json", "rustls-tls"] }
serde = { version = "1", features = ["derive"] }
serde_json = "1"
sys-locale = "0.3"
tokio = { version = "1", features = ["rt-multi-thread", "macros", "time", "fs", "io-util", "process", "sync"] }
toml = "0.8"
zip = { version = "2", default-features = false, features = ["deflate"] }
