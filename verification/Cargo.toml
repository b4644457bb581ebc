[package]
name = "yarrp"
version = "0.1.0"
edition = "2021"
publish = false

[dependencies]
http = "1"
hex = "0.4"
rustls = { version = "0.23", default-features = false, features = ["std", "ring"] }
tokio = { version = "1", features = ["full"] }
hyper = { version = "1", features = ["full"] }
hyper-util = { version = "0.1", features = ["full"] }
http-body-util = "0.1"
tonic = "*"
tower = { version = "0.5", features = ["util"] }
futures = "0.3"
futures-util = "0.3"
tokio-stream = { version = "0.1", features = ["net"] }
tokio-util = "0.7"
async-stream = "0.3"
h3 = "*"
h3-quinn = "*"
pin-project-lite = "0.2"
tracing = "0.1"
cfg-if = "1"
tokio-rustls = { version = "0.26", default-features = false, features = ["ring", "tls12"] }
openssl = "0.10"
tokio-openssl = "0.6"
schannel = "0.1"
rustls-cng = "*"
rustls-symcrypt = "*"
uds_windows = "1"
win_uds = "*"
