[package]
name = "vype"
version = "0.1.0"
edition = "2021"
publish = false

[dependencies]
anyhow = "=1.0.104"
clap = { version = "=4.6.7", features = ["derive"] }
ctrlc = "=3.5.2"
dirs = "=5.0.1"
env_logger = "=0.11.11"
hf-hub = { version = "=0.3.2", default-features = false, features = ["online"] }
libxdo = "=0.6.0"
log = "=0.4.34"
rdev = "0.5"
rubato = "=0.15.0"
thiserror = "=1.0.69"
zbus = "=4.4.0"
