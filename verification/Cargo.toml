[package]
name = "papiauditor"
version = "0.1.0"
edition = "2021"
publish = false

[dependencies]
rand = "0.8"
num_cpus = "1.16"
tokio = { version = "1.35", features = ["full"] }
futures = "0.3"
chrono = "0.4"
