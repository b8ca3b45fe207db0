[package]
name = "xbim"
version = "0.1.0"
edition = "2021"
publish = false

[dependencies]
chrono = "=0.4.45"
figment = { version = "=0.10.19", features = ["toml"] }
flate2 = "=1.1.10"
rand = "=0.9.5"
rcgen = "=0.13.2"
rocket = { version = "=0.5.2", features = ["json", "secrets", "tls"] }
rocket_cors = "=0.6.0"
rocket_oauth2 = "0.5"
serde = { version = "=1.0.229", features = ["derive"] }
serde_json = "=1.0.154"
toml = "=0.8.23"
uuid = { version = "=1.29.0", features = ["v4"] }
