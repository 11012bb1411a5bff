[package]
name = "zuul"
version = "0.1.0"
edition = "2021"
publish = false

[dependencies]
exitcode = "=1.1.2"
futures-util = { version = "=0.3.34", features = ["sink"] }
i18n-embed = { version = "=0.16.0", features = ["desktop-requester"] }
tokio = { version = "=1.54.1", features = ["io-std", "io-util", "sync"] }
tracing = "=0.1.44"
tracing-journald = "=0.3.2"
tracing-subscriber = { version = "=0.3.23", features = ["env-filter"] }
