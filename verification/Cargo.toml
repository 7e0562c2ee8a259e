[package]
name = "gallery_dl"
version = "0.1.0"
edition = "2021"
publish = false

[dependencies]
anyhow = "*"
async-trait = "*"
bytes = "*"
clap = { version = "*", features = ["derive"] }
http-body-util = "*"
hyper = { version = "*", features = ["client", "http1"] }
hyper-util = { version = "*", features = ["tokio"] }
indicatif = "*"
regex = "*"
tl = "*"
tokio = { version = "*", features = ["rt-multi-thread", "macros", "fs", "io-util", "net", "sync", "time"] }
tokio-rustls = { version = "*", default-features = false, features = ["ring", "logging", "tls12"] }
webpki-roots = "*"
