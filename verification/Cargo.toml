[package]
name = "changesets"
version = "0.1.0"
edition = "2021"
publish = false

[dependencies]
anyhow = "1"
arrow = { version = "*", default-features = false }
bzip2 = "*"
chrono = { version = "0.4", default-features = false, features = ["std"] }
clap = { version = "4", features = ["derive"] }
parquet = { version = "*", default-features = false, features = ["arrow", "snap"] }
quick-xml = "0.37"
