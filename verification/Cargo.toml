[package]
name = "teams_status"
version = "0.1.0"
edition = "2021"
publish = false

[dependencies]
json = "=0.12.4"
serde_json = "=1.0.154"
url = "=2.5.8"
magic-crypt = "=3.1.13"
rust-ini = "=0.21.3"
regex = "=1.13.1"
md-5 = "=0.10.6"
anyhow = "=1.0.104"
log = "=0.4.34"
log4rs = { version = "=1.4.0", default-features = false, features = ["rolling_file_appender", "compound_policy", "size_trigger", "fixed_window_roller", "pattern_encoder"] }
log-panics = "=2.1.0"
tokio = { version = "=1.54.1", features = ["rt-multi-thread", "time", "sync"] }
tokio-tungstenite = "=0.30.0"
futures-util = "=0.3.34"
home-assistant-rest = "=0.2.0"
rumqttc = { version = "=0.25.1", default-features = false }
auto-launch = "=0.6.0"
notify = "8.2"
image = { version = "=0.25.10", default-features = false, features = ["ico"] }
winit = { version = "=0.30.13", default-features = false, features = ["x11", "rwh_06"] }
windows = { version = "=0.58.0", features = ["Win32_Foundation", "Win32_Security", "Win32_System_Threading"] }
