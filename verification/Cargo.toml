[package]
name = "firds"
version = "0.1.0"
edition = "2021"
publish = false

[dependencies]
quick-xml = "=0.37.5"
chrono = "=0.4.45"
serde_json = "=1.0.154"
md-5 = "=0.10.6"
base16ct = { version = "=0.2.0", features = ["alloc"] }
url = "=2.5.8"
log = "0.4"
clap = { version = "4", features = ["derive"] }
futures = "0.3"
futures-util = "0.3"
indicatif = "0.17"
reqwest = { version = "0.12", default-features = false, features = ["stream"] }
tokio = { version = "1", features = ["macros", "rt-multi-thread"] }
zip = { version = "2", default-features = false, features = ["deflate"] }
sqlx = { version = "0.8", default-features = false, features = ["sqlite", "runtime-tokio"] }
