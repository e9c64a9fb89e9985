[package]
name = "ratado"
version = "0.1.0"
edition = "2021"
publish = false

[dependencies]
chrono = { version = "=0.4.45", default-features = false, features = ["clock", "std"] }
uuid = { version = "=1.29.0", features = ["v7"] }
ratatui = { version = "=0.30.2", default-features = false, features = ["crossterm"] }
crossterm = "=0.29.0"
tokio = { version = "=1.54.1", features = ["rt-multi-thread", "macros", "time"] }
turso = { version = "=0.8.3", default-features = false }
directories = "=6.0.0"
clap = { version = "=4.6.7", features = ["derive"] }
log = "=0.4.35"
open = "5"
