[package]
name = "hopcoder_shell"
version = "0.1.0"
edition = "2021"
publish = false

[dependencies]
chrono = { version = "0.4", default-features = false, features = ["now", "std"] }
dashmap = "5"
rusqlite = "0.31"
serde = { version = "1", features = ["derive"] }
serde_json = "1"
tokio = { version = "1", features = ["fs", "io-util", "process", "rt", "sync"] }
uuid = { version = "1", features = ["v4"] }
