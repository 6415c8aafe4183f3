[package]
name = "mediaserver"
version = "0.1.0"
edition = "2021"
publish = false

[dependencies]
rand = "0.9"
uuid = { version = "1", features = ["v4"] }
url = { version = "2", features = ["serde"] }
percent-encoding = "2"
v_htmlescape = "*"
bytesize = "2"
num-format = "0.4"
chrono = "0.4"
serde = { version = "1", features = ["derive"] }
toml = "*"
thiserror = "2"
log = "0.4"
env_logger = "*"
actix-web = "4"
actix-files = "0.6"
actix-multipart = "0.7"
askama = "*"
