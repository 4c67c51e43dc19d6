[package]
name = "bazaar_realm_api"
version = "0.1.0"
edition = "2021"
publish = false

[dependencies]
anyhow = "1"
barrel = { version = "0.7", features = ["pg"] }
bincode = "1"
chrono = { version = "0.4", features = ["serde"] }
dotenv = "0.15"
http = "0.2"
http-api-problem = "0.50"
hyper = { version = "0.14", features = ["server", "tcp", "http1"] }
ipnetwork = "0.20"
listenfd = "1"
mime = "0.3"
openssl-probe = "0.1"
seahash = "=4.1.0"
serde = { version = "1", features = ["derive"] }
serde_json = "1"
sqlx = { version = "0.7", default-features = false, features = ["runtime-tokio", "postgres", "macros", "chrono", "uuid", "ipnetwork", "json"] }
tokio = { version = "1", features = ["macros", "rt-multi-thread"] }
tracing = "0.1"
tracing-appender = "0.2"
tracing-subscriber = { version = "0.3", features = ["env-filter"] }
url = "2"
uuid = { version = "1", features = ["serde"] }
warp = "0.3"
