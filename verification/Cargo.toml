[package]
name = "muzui"
version = "0.1.0"
edition = "2021"
publish = false

[dependencies]
material-colors = { version = "0.4", features = ["image"] }
reqwest = "0.12"
serde = { version = "1", features = ["derive"] }
serde_json = "1"
skia-safe = { version = "*", features = ["textlayout", "svg"] }
tokio = { version = "1", features = ["macros", "rt-multi-thread", "sync"] }
twilight-cache-inmemory = "0.15"
twilight-gateway = "0.15"
twilight-http = "0.15"
twilight-model = "0.15"
zbus = "4"
