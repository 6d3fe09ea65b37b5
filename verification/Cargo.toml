[package]
name = "penguin_mux"
version = "0.1.0"
edition = "2021"
publish = false

[dependencies]
bytes = "=1.12.1"
futures-util = "=0.3.34"
http = "=0.2.12"
log = "=0.4.34"
rustls = { version = "=0.21.12", features = ["dangerous_configuration"] }
rustls-native-certs = "=0.6.3"
rustls-pemfile = "=1.0.4"
thiserror = "=1.0.69"
tokio = { version = "=1.53.2", features = ["full"] }
tokio-tungstenite = { version = "=0.20.1", features = ["rustls-tls-webpki-roots"] }
tracing = "=0.1.44"
tungstenite = "=0.20.1"
url = "=2.5.8"
warp = { version = "=0.3.7", features = ["tls"] }
webpki = "=0.22.4"
webpki-roots = "=0.25.4"
