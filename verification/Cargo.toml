[package]
name = "ab_av1"
version = "0.11.4"
edition = "2021"
publish = false

[dependencies]
anyhow = "1"
clap = { version = "4", features = ["derive", "env"] }
clap_complete = "4"
console = "*"
futures-util = { version = "0.3", features = ["sink"] }
indicatif = "*"
log = "0.4"
same-file = "1"
serde = { version = "1", features = ["derive"] }
serde_json = "1"
shell-escape = "0.1"
tempfile = "3"
tokio = { version = "1", features = ["rt", "macros", "net", "time", "fs"] }
tokio-stream = "0.1"
tokio-tungstenite = "0.24"
