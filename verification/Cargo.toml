[package]
name = "guild_queue"
version = "0.1.0"
edition = "2021"
publish = false

[dependencies]
anyhow = "1"
bincode = { version = "2", default-features = false, features = ["std", "serde"] }
reqwest = { version = "0.12", default-features = false }
serde = { version = "1", features = ["derive"] }
songbird = { version = "=0.5.0", default-features = false, features = ["driver", "gateway", "twilight", "rustls", "tws"] }
tokio = { version = "1", features = ["rt-multi-thread", "macros", "sync", "time"] }
tracing = "0.1"
tracing-subscriber = { version = "0.3", default-features = false, features = ["fmt"] }
twilight-cache-inmemory = "=0.16.0"
twilight-gateway = { version = "=0.16.0", default-features = false }
twilight-http = { version = "=0.16.0", default-features = false }
twilight-model = "=0.16.0"
