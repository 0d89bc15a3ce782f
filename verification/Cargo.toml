[package]
name = "chiliseed"
version = "0.1.0"
edition = "2021"
publish = false

[dependencies]
chrono = { version = "0.4", features = ["serde"] }
flate2 = "1"
globset = "0.4"
log = "0.4"
pretty_env_logger = "0.4"
prettytable-rs = "0.10"
reqwest = { version = "0.11", features = ["blocking", "json", "cookies"] }
rusoto_core = "0.48"
rusoto_credential = "0.48"
rusoto_ecr = "0.48"
rusoto_ecs = "0.48"
rusoto_iam = "0.48"
serde = { version = "1", features = ["derive"] }
serde_json = "1"
ssh2 = "0.9"
structopt = "0.3"
tar = "0.4"
text_io = "0.1"
tokio = { version = "1", features = ["macros", "rt-multi-thread"] }
url = "2"
uuid = { version = "0.8", features = ["v4"] }
walkdir = "2"
