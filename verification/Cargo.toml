[package]
name = "xtask"
version = "0.1.0"
edition = "2021"
publish = false

[dependencies]
regex = "1"
num_cpus = "1"
anyhow = "1"
clap = { version = "4", features = ["derive"] }
gix = "*"
reqwest = { version = "*", default-features = false, features = ["blocking", "rustls-tls"] }
chrono = "*"
serde = { version = "1", features = ["derive"] }
serde_json = "1"
serde_yml = "*"
annotate-snippets = "*"
anstream = "*"
tracing = "*"
