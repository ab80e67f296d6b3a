[package]
name = "acc_best_laps"
version = "0.1.0"
edition = "2021"
publish = false

[dependencies]
anyhow = "=1.0.104"
chrono = { version = "=0.4.45", default-features = false, features = ["clock", "std"] }
crossterm = { version = "=0.29.0", default-features = false }
discord-webhook2 = "=0.4.3"
dotenv = "=0.15.0"
simetry = { version = "=0.2.3", default-features = false }
sqlx = { version = "=0.8.6", default-features = false, features = ["postgres", "runtime-tokio", "chrono", "derive"] }
tokio = { version = "=1.54.1", features = ["macros", "rt-multi-thread"] }
