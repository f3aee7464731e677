[package]
name = "miband"
version = "0.1.0"
edition = "2021"
publish = false

[dependencies]
async-trait = "=0.1.92"
bluer = { version = "=0.17.4", features = ["bluetoothd"] }
byteorder = "=1.5.0"
chrono = "=0.4.45"
clap = { version = "=4.6.7", features = ["derive"] }
crc = "=3.4.0"
# Named for its feature alone: bluer reaches BlueZ over D-Bus, and with
# `vendored` the binding builds from its own source, without a system libdbus.
dbus = { version = "=0.9.12", features = ["vendored"] }
derive_more = { version = "=2.1.1", features = ["deref", "from"] }
env_logger = "=0.11.11"
futures = "=0.3.34"
log = "=0.4.34"
thiserror = "=2.0.21"
tokio = { version = "=1.54.1", features = ["rt", "macros", "net", "sync", "time"] }
uuid = "=1.29.0"
