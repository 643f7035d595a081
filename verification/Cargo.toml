[package]
name = "satcli"
version = "0.1.0"
edition = "2021"
publish = false

[dependencies]
quick-xml = { version = "*", features = ["serialize"] }
chrono = "0.4"
base64 = "0.22"
serde = { version = "1", features = ["derive"] }
serde_json = "1"
clap = { version = "4", features = ["derive"] }
tokio = { version = "1", features = ["full"] }
reqwest = { version = "*", features = ["json"] }
chromiumoxide = "*"
twocaptcha = "*"
tempfile = "3"
dirs = "*"
rpassword = "*"
async-trait = "0.1"
futures = "0.3"
thiserror = "*"
