[package]
name = "pi6eon"
version = "0.1.0"
edition = "2021"
publish = false

[dependencies]
aes-gcm = "*"
x25519-dalek = { version = "*", features = ["getrandom", "static_secrets"] }
tokio = { version = "*", features = ["rt", "rt-multi-thread", "net", "io-util", "io-std", "macros", "time"] }
clap = { version = "*", features = ["derive"] }
anyhow = "*"
