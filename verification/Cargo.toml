[package]
name = "quarkcli"
version = "0.1.0"
edition = "2021"
publish = false

[dependencies]
base64 = "0.22"
bytes = "1"
chrono = "0.4"
clap = { version = "4", features = ["derive", "env"] }
directories = "6"
futures-core = "0.3"
futures-util = "0.3"
indicatif = "0.17"
md5 = "0.7"
owo-colors = "4"
pin-project-lite = "0.2"
reqwest = { version = "0.12", default-features = false }
serde = { version = "1", features = ["derive"] }
serde_json = "1"
sha1 = "0.10"
shlex = "1"
thiserror = "2"
tokio = { version = "1", features = ["full"] }
tokio-util = { version = "0.7", features = ["io"] }
toml = "0.8"
url = "2"
