[package]
name = "rquest"
version = "0.1.0"
edition = "2021"
publish = false

[dependencies]
http = "1"
http-body = "1"
bytes = "1"
log = "0.4"
rustls-native-certs = "*"
webpki-root-certs = "*"

[dev-dependencies]
url = "2"
