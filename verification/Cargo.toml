[package]
name = "whosinbot"
version = "0.1.0"
edition = "2021"
publish = false

[dependencies]
chrono = "0.4"
config = "0.9"
diesel = { version = "1.4", features = ["postgres", "r2d2", "chrono"] }
diesel_migrations = "1.4"
dotenv = "0.15"
failure = "0.1"
futures = "0.1"
itertools = "0.8"
r2d2 = "0.8"
rust-crypto = "0.2"
sentry = "0.12"
serde = { version = "1", features = ["derive"] }
slog = "2"
slog-async = "2"
slog-json = "2"
slog-scope = "4"
slog-term = "2"
telegram-bot = "0.6"
tokio-core = "0.1"

[dev-dependencies]
regex = "1"
