[package]
name = "skin_resolver"
version = "0.1.0"
edition = "2021"
publish = false

[dependencies]
axum = "*"
chrono = "*"
clap = { version = "*", features = ["derive"] }
fern = { version = "*", features = ["colored"] }
log = "*"
reqwest = { version = "*", default-features = false }
tokio = { version = "*", features = ["macros", "rt-multi-thread", "net", "fs"] }
tokio-util = { version = "*", features = ["io"] }
