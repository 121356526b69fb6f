[package]
name = "gitcal"
version = "0.1.0"
edition = "2021"
publish = false

[dependencies]
colored = "=2.1.0"
hex_color = "=3.0.0"
clap = "=4.6.7"
jiff = "=0.2.38"
serde_json = "=1.0.151"
reqwest = { version = "=0.12.28", default-features = false, features = ["blocking", "rustls-tls"] }
