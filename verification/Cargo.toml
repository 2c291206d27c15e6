[package]
name = "iris"
version = "0.1.0"
edition = "2021"
publish = false

[dependencies]
sha2 = "=0.10.9"
getrandom = "=0.3.4"
subtle = "=2.6.1"
openidconnect = "=4.1.0"
lettre = { version = "=0.11.23", default-features = false, features = ["builder", "smtp-transport", "tokio1", "hostname"] }
serde = { version = "=1.0.229", features = ["derive"] }
serde_json = "=1.0.154"
sqlx = { version = "=0.8.6", default-features = false, features = ["sqlite", "runtime-tokio"] }
axum = "=0.8.9"
tokio = { version = "=1.54.1", features = ["rt-multi-thread", "macros", "net", "time"] }
time = "=0.3.55"
tower-sessions = "=0.14.0"
async-trait = "=0.1.92"
utoipa = "=5.5.0"
utoipa-axum = "=0.2.0"
aide = { version = "=0.14.2", features = ["axum", "axum-json"] }
schemars = "=0.8.22"
tempfile = "=3.27.0"
chrono = { version = "=0.4.45", default-features = false }
