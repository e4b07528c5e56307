[package]
name = "wire_trace"
version = "0.1.0"
edition = "2021"
publish = false

[dependencies]
bytes = "1"
httparse = "1"
url = "2"
tokio = { version = "1", features = ["net", "io-util", "time", "rt"] }
rustls = "0.21"
tokio-rustls = "0.24"
webpki-roots = "0.25"
