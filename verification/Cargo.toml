[package]
name = "zingo"
version = "0.1.0"
edition = "2021"
publish = false

[dependencies]
anyhow = "=1.0.104"
bip0039 = "=0.14.2"
clap = { version = "=4.6.7", features = ["derive"] }
ctrlc = "=3.5.2"
dirs = "=7.0.0"
http = "=1.5.0"
json = "=0.12.4"
log = "=0.4.35"
log4rs = { version = "=1.4.0", default-features = false, features = ["console_appender", "file_appender", "pattern_encoder"] }
rand = "=0.8.8"
reqwest = { version = "=0.12.28", default-features = false, features = ["blocking", "json", "rustls-tls"] }
rpassword = "=7.5.4"
rustls = { version = "=0.23.46", default-features = false, features = ["ring", "std"] }
serde = { version = "=1.0.229", features = ["derive"] }
serde_json = "=1.0.154"
tokio = { version = "=1.54.1", features = ["rt-multi-thread"] }
toml = "=0.8.23"
tracing = "=0.1.44"
zcash_address = "=0.14.0"
zcash_protocol = "=0.11.0"
zcash_transparent = "=0.11.0"
zip32 = "=0.3.0"
