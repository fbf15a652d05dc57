[package]
name = "rss_notifier"
version = "0.1.0"
edition = "2021"
publish = false

[dependencies]
actix = { version = "=0.10.0", default-features = false }
actix-web = { version = "=3.3.3", default-features = false }
chrono = { version = "=0.4.45", features = ["serde"] }
ctrlc = "=3.5.2"
env_logger = "=0.7.1"
futures = "=0.3.34"
handlebars = "=6.4.4"
lazy_static = "=1.5.1"
lettre = "=0.9.6"
lettre_email = "=0.9.4"
log = "=0.4.35"
mime_guess = "=2.0.5"
native-tls = "=0.2.18"
notify = "=5.0.0-pre.2"
reqwest = "=0.10.10"
rss = { version = "=2.1.2", features = ["with-serde"] }
serde = { version = "=1.0.229", features = ["derive"] }
serde_json = { version = "=1.0.154", features = ["unbounded_depth"] }
structopt = "=0.3.26"
tokio = { version = "=0.2.25", features = ["full"] }
toml = "=0.5.11"
url = { version = "=2.5.8", features = ["serde"] }
uuid = { version = "=1.29.0", features = ["v4", "serde"] }
