[package]
name = "dds_pubsub"
version = "0.1.0"
edition = "2021"
publish = false

[dependencies]
rustdds = "*"
serde = { version = "1", features = ["derive"] }
futures = "0.3"
smol = "*"
log = "0.4"
log4rs = "*"
structopt = "0.3"
strum = { version = "*", features = ["derive"] }
