[package]
name = "enchanting"
version = "0.1.0"
edition = "2021"
publish = false

[dependencies]
rand = "=0.8.8"
chrono = { version = "=0.4.45", default-features = false, features = ["clock", "std"] }
teloxide = { version = "=0.13.0", default-features = false, features = ["macros", "rustls"] }
takecell = "=0.1.1"
sqlx = { version = "=0.8.6", default-features = false, features = ["postgres", "runtime-tokio", "derive"] }
tokio = { version = "=1.54.1", features = ["rt", "time", "macros"] }
anyhow = "=1.0.104"
log = "=0.4.35"
rust-i18n = "=3.1.5"
derive_more = { version = "=1.0.0", features = ["display"] }
