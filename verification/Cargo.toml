[package]
name = "yured"
version = "0.1.0"
edition = "2021"
publish = false

[dependencies]
ahrs = { version = "=0.8.0", features = ["field_access"] }
clap = { version = "=4.6.7", features = ["derive"] }
industrial-io = "=0.6.1"
karen = "=0.1.2"
nalgebra = "=0.34.2"
nix = { version = "=0.31.3", features = ["fs"] }
num-traits = "=0.2.19"
rand = "=0.10.3"
ringbuffer = "=0.16.0"
serde = { version = "=1.0.229", features = ["derive"] }
serde_json = "=1.0.154"
sys-info-extended = "=1.2.0"
tungstenite = { version = "=0.30.0", features = ["rustls-tls-webpki-roots"] }
url = "=2.5.8"
vqf = "=0.4.1"
