[package]
name = "iiif_forager"
version = "0.1.0"
edition = "2021"
publish = false

[dependencies]
imagesize = { version = "=0.15.0", default-features = false, features = ["jpeg", "tiff"] }
serde = { version = "=1.0.229", features = ["derive"] }
serde_json = "=1.0.154"
serde_yaml = "=0.9.34"
actix-web = { version = "=4.18.1", default-features = false, features = ["macros"] }
actix-rt = "=2.15.0"
clap = "=4.6.7"
png = "*"
