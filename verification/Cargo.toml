[package]
name = "nu_plugin_sdkman"
version = "0.1.0"
edition = "2021"
publish = false

[dependencies]
dirs = "=7.0.0"
flate2 = "=1.1.10"
tar = "=0.4.46"
zip = { version = "=9.0.5", default-features = false, features = ["deflate"] }
reqwest = { version = "=0.12.28", default-features = false, features = ["blocking", "rustls-tls"] }
nu-plugin = "=0.114.1"
nu-protocol = "=0.114.1"

[dev-dependencies]
tempfile = "=3.27.0"
