[package]
name = "rompom"
version = "0.1.0"
edition = "2021"
publish = false

[dependencies]
checksums = "0.9"
chrono = { version = "0.4", default-features = false, features = ["std"] }
dirs = "6"
getopts = "0.2"
glob = "0.3"
internet_archive = "0.1"
reqwest = { version = "0.12", default-features = false, features = ["blocking"] }
serde = { version = "1", features = ["derive"] }
serde_derive = "1"
serde_json = "1"
serde-xml-rs = "*"
serde_yaml = "0.9"
snafu = "0.8"
