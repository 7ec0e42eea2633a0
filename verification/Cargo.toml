[package]
name = "webnis"
version = "0.1.0"
edition = "2021"
publish = false

[dependencies]
url = "=1.7.2"
serde = { version = "=1.0.229", features = ["derive"] }
serde_json = "=1.0.154"
hyper = "=0.12.36"
hyper-tls = "=0.3.2"
tokio = "=0.1.22"
futures = "=0.1.31"
gdbm = "=0.2.0"
pamsm = { version = "=0.5.5", features = ["libpam"] }
log = "=0.4.34"
env_logger = "=0.11.11"
