[package]
name = "finch"
version = "0.1.0"
edition = "2021"
publish = false

[dependencies]
async-trait = "0.1"
axum = "0.5"
clap = { version = "3", features = ["derive"] }
color-eyre = "0.6"
confy = "0.5"
sea-orm = { version = "0.7", features = ["macros", "runtime-tokio-rustls", "sqlx-postgres"] }
sea-schema = { version = "0.7", default-features = false, features = ["migration", "debug-print"] }
serde = { version = "1", features = ["derive"] }
tera = "1"
thiserror = "1"
tokio = { version = "1", features = ["full"] }
tower = "0.4"
tower-http = { version = "0.3", features = ["fs"] }
tracing = "0.1"
tracing-subscriber = "0.3"
