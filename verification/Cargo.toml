[package]
name = "jukebot"
version = "0.1.0"
edition = "2021"
publish = false

[dependencies]
anyhow = "1"
dotenvy = "0.15"
reqwest = { version = "0.12", default-features = false, features = ["rustls-tls"] }
songbird = { version = "0.5", default-features = false, features = ["driver", "gateway", "twilight", "rustls", "builtin-queue"] }
tokio = { version = "1", features = ["macros", "rt-multi-thread", "signal"] }
tracing = "0.1"
tracing-journald = "0.3"
tracing-subscriber = { version = "0.3", features = ["env-filter"] }
twilight-cache-inmemory = "0.16"
twilight-gateway = "0.16"
twilight-http = "0.16"
twilight-interactions = "0.16"
twilight-model = "0.16"
twilight-standby = "0.16"
twilight-util = { version = "0.16", features = ["builder"] }
