[package]
name = "hercules"
version = "0.1.0"
edition = "2021"
publish = false

[dependencies]
anyhow = "=1.0.104"
chrono = "=0.4.45"
clap = "=4.6.7"
colored = "=2.2.0"
crossbeam-channel = "=0.5.17"
dirs = "=5.0.1"
env_logger = "=0.10.2"
hidapi = { version = "=2.6.7", default-features = false, features = ["linux-native-basic-udev"] }
indicatif = "=0.17.11"
is_elevated = "=0.1.2"
log = "=0.4.34"
serde = { version = "=1.0.229", features = ["derive"] }
sysinfo = "=0.29.11"
toml = "=0.8.23"
users = "=0.11.0"
winapi = { version = "=0.3.9", features = ["shellapi", "winuser"] }
