[package]
name = "fatcat"
version = "0.1.0"
edition = "2021"
publish = false

[dependencies]
url = "=1.7.2"
serde_json = "=1.0.154"
chrono = { version = "=0.4.45", features = ["serde"] }
serde = "=1.0.229"
serde_derive = "=1.0.229"
futures = "=0.1.31"
iron = "=0.6.1"
router = "=0.6.0"
bodyparser = "=0.8.0"
urlencoded = "=0.6.0"
serde_ignored = "=0.1.14"
uuid = { version = "=0.5.1", features = ["v4"] }
hyper = "=0.10.16"
log = "=0.4.35"
swagger = "=0.7.0"
regex = "1"
