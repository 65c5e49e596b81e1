[package]
name = "laska"
version = "0.1.0"
edition = "2021"
publish = false

[dependencies]
anstyle = "1"
anyhow = "1"
byteorder = "1"
clap = { version = "4", features = ["derive"] }
ctrlc = "3"
libc = "0.2"
log = "0.4"
signal-hook = "0.3"
tracing = "0.1"
tracing-subscriber = { version = "0.3", features = ["env-filter"] }
