[package]
name = "url_shortener"
version = "0.1.0"
edition = "2021"
publish = false

[dependencies]
url = "2"
base64 = "0.22"
rand = "0.8"
axum = "0.7"
axum-prometheus = "0.7"
tokio = { version = "1", features = ["macros", "rt-multi-thread", "net", "time"] }
sqlx = { version = "0.8", default-features = false, features = ["postgres", "runtime-tokio"] }
serde = { version = "1", features = ["derive"] }
tower-http = { version = "0.5", features = ["trace"] }
tracing = "0.1"
tracing-subscriber = { version = "0.3", features = ["env-filter", "fmt"] }
dotenv = "0.15"
metrics = "0.23"
