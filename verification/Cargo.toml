[package]
name = "iris_server"
version = "0.1.0"
edition = "2021"
publish = false

[dependencies]
argon2 = "0.5"
axum = { version = "0.7", features = ["ws", "macros"] }
axum-extra = { version = "0.9", features = ["typed-header"] }
chrono = "0.4"
dashmap = "5"
diesel = { version = "2", features = ["postgres"] }
dotenvy = "0.15"
futures-util = "0.3"
headers = "0.4"
hmac = "0.12"
http-body-util = "0.1"
jwt = "0.16"
rand = "0.8"
serde = { version = "1", features = ["derive"] }
serde_json = "1"
sha2 = "0.10"
tokio = { version = "1", features = ["sync", "rt-multi-thread", "macros", "net"] }
tower = "0.4"
tower-http = { version = "0.5", features = ["trace", "add-extension", "cors"] }
tracing = "0.1"
tracing-subscriber = { version = "0.3", features = ["env-filter"] }

[dev-dependencies]
prost = { version = "0.12", default-features = false, features = ["std"] }
