[package]
name = "airpods"
version = "0.1.0"
edition = "2021"
publish = false

[dependencies]
anyhow = "=1.0.104"
bluer = { version = "=0.17.4", features = ["bluetoothd", "l2cap"] }
clap = { version = "=4.6.7", features = ["derive"] }
# Not used directly: its `vendored` feature builds the libdbus that bluer needs.
dbus = { version = "=0.9.12", features = ["vendored"] }
dirs = "=7.0.0"
futures-util = "=0.3.34"
gtk4 = { version = "=0.11.5", features = ["v4_6"] }
libc = "=0.2.191"
log = "=0.4.35"
serde = { version = "=1.0.229", features = ["derive"] }
tokio = { version = "=1.54.1", features = ["full"] }
toml = "=1.1.8"
zbus = { version = "=5.19.0", default-features = false, features = ["tokio"] }
zvariant = "=5.15.1"
