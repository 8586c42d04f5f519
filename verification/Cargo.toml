[package]
name = "issue_bot"
version = "0.1.0"
edition = "2021"
publish = false

[dependencies]
clap = "=4.6.7"
eyre = "=0.6.14"
octocrab = "=0.47.1"
radix_trie = "=0.2.1"
ron = "=0.12.2"
serde = { version = "=1.0.229", features = ["derive"] }
tokio = { version = "=1.54.1", features = ["macros", "rt-multi-thread", "signal", "sync", "time"] }
tracing = "=0.1.44"
tracing-subscriber = "0.3"
twilight-gateway = "=0.16.0"
twilight-http = "=0.16.0"
twilight-model = "=0.16.0"
