[package]
name = "chocoapi"
version = "0.1.0"
edition = "2021"
publish = false

[dependencies]
argon2 = { version = "=0.5.3", features = ["std"] }
axum = { version = "=0.6.20", features = ["multipart"] }
config = { version = "=0.13.4", default-features = false, features = ["yaml"] }
dotenv = "=0.15.0"
eyre = "=0.6.14"
http-api-problem = "=0.60.0"
hyper = "=0.14.32"
image = { version = "=0.24.9", default-features = false, features = ["png", "jpeg", "bmp"] }
password-hash = { version = "=0.5.0", features = ["getrandom"] }
secrecy = { version = "=0.8.0", features = ["serde"] }
serde = { version = "=1.0.229", features = ["derive"] }
serde_json = "=1.0.151"
sqlx = { version = "=0.7.4", default-features = false, features = ["runtime-tokio", "tls-rustls", "postgres", "uuid", "time"] }
time = { version = "=0.3.55", features = ["formatting", "serde"] }
tokio = { version = "=1.53.2", features = ["macros", "rt-multi-thread"] }
tower-http = { version = "=0.4.4", features = ["trace"] }
tracing = { version = "=0.1.44", features = ["log"] }
tracing-subscriber = { version = "=0.3.23", features = ["env-filter", "fmt"] }
uuid = { version = "=1.27.0", features = ["v4", "serde"] }
