[package]
name = "corpus-preproc"
version = "0.1.0"
edition = "2021"
publish = false

[dependencies]
unicode-normalization = "=0.1.26"
unicode-segmentation = "=1.13.3"
regex = "=1.13.1"
chardetng = "=0.1.17"
encoding_rs = "=0.8.44"
kuchiki = "=0.8.1"
clap = { version = "=3.2.25", features = ["derive"] }
serde = { version = "=1.0.229", features = ["derive"] }
serde_json = "=1.0.154"
axum = { version = "=0.5.17", features = ["multipart"] }
tokio = { version = "=1.54.1", features = ["full"] }
tower-http = { version = "=0.3.5", features = ["trace"] }
tracing = "=0.1.44"
tracing-subscriber = { version = "=0.3.23", features = ["env-filter"] }
indicatif = "=0.17.11"
num_cpus = "=1.17.0"
rayon = "=1.12.0"
walkdir = "=2.5.0"
lazy_static = "=1.5.1"
