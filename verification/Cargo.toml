[package]
name = "message_relay"
version = "0.1.0"
edition = "2021"
publish = false

[dependencies]
actix-web = { version = "4", default-features = false, features = ["macros"] }
awc = { version = "3", default-features = false }
base64 = "0.13"
data-url = "0.2"
futures-util = "0.3"
lazy_static = "1.4"
mongodb = "2"
serde = { version = "1", features = ["derive"] }
serde_json = "1"
twilight-http = { version = "0.13", default-features = false }
twilight-model = "0.13"
twilight-util = { version = "0.13", features = ["builder"] }
