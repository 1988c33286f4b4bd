[package]
name = "actix_admin"
version = "0.1.0"
edition = "2021"
publish = false

[dependencies]
serde_urlencoded = "=0.7.1"
axum = "=0.8.9"
log = "=0.4.35"
tower = { version = "=0.5.3", features = ["util"] }
tower-http = { version = "=0.6.11", features = ["fs"] }
serde = { version = "=1.0.229", features = ["derive"] }
tera = "1"
