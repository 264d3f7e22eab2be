[package]
name = "mailpot"
version = "0.1.0"
edition = "2021"
publish = false

[dependencies]
base64 = "=0.21.7"
melib = { version = "=0.8.13", default-features = false }
rhai = "=1.27.0"
serde = { version = "=1.0.229", features = ["derive"] }
serde_json = "=1.0.154"
rusqlite = { version = "=0.29.0", features = ["bundled", "hooks"] }
minijinja = "=1.0.22"
clap = { version = "=4.6.7", features = ["derive"] }
toml = "=0.7.8"
log = "=0.4.35"
stderrlog = "=0.5.4"
anyhow = "=1.0.104"
chrono = "=0.4.45"
ureq = { version = "2", default-features = false, features = ["json"] }
