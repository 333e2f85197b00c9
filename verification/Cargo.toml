[package]
name = "daphne"
version = "0.1.0"
edition = "2021"
publish = false

[dependencies]
anyhow = "1"
rusb = { version = "0.9", features = ["vendored"] }
serde = { version = "1", features = ["derive"] }
postcard = { version = "1", features = ["alloc"] }
clap = { version = "4", features = ["derive"] }
ctrlc = "3"
pcap = "*"
pretty-hex = "*"
