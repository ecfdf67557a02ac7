[package]
name = "winter_wonderlights"
version = "0.1.0"
edition = "2021"
publish = false

[dependencies]
nom = "7"
image = { version = "0.24", default-features = false }
serde = { version = "1", features = ["derive"] }
bincode = "1"
ron = "0.8"
tokio = { version = "1", features = ["rt", "macros", "net", "sync", "time", "signal"] }
tokio-tungstenite = "*"
futures-util = "0.3"
clap = { version = "4", features = ["derive"] }
rustyline = "*"
termion = "*"
tracing = "0.1"
tracing-subscriber = "0.3"
