[package]
name = "gsutil"
version = "0.1.0"
edition = "2021"
publish = false

[dependencies]
ansi_term = "0.12"
anyhow = "1"
bytes = "1"
clap = { version = "4", features = ["derive", "env"] }
futures-util = "0.3"
nu-ansi-term = "*"
reqwest = { version = "0.12", default-features = false, features = ["rustls-tls", "stream"] }
tame-gcs = { version = "*", features = ["signing"] }
tame-oauth = { version = "*", features = ["gcp"] }
time = { version = "0.3", features = ["formatting"] }
tokio = { version = "1", features = ["macros", "rt-multi-thread"] }
url = "2"
