[package]
name = "qsrv"
version = "0.1.0"
edition = "2021"
publish = false

[dependencies]
clap = { version = "4", features = ["derive"] }
eyre = "0.6"
http-body-util = "0.1"
hyper = { version = "1", features = ["server", "http1"] }
mio = { version = "*", features = ["os-poll", "net"] }
time = { version = "0.3", features = ["macros", "formatting"] }
tokio = { version = "1", features = ["fs", "rt"] }
tracing = "0.1"
tracing-subscriber = { version = "0.3", features = ["time"] }
