[package]
name = "cloudcafe"
version = "0.1.0"
edition = "2021"
publish = false

[dependencies]
goth-gltf = "=0.3.2"
nanoserde = "=0.2.1"
laminar = "=0.5.0"
bincode = "=1.3.3"
serde = { version = "=1.0.229", features = ["derive"] }
serde_json = "=1.0.154"
uuid = { version = "=1.29.0", features = ["v4", "serde"] }
crossbeam = "=0.8.5"
dashmap = "=5.5.3"
toml = "=1.1.8"
log = "=0.4.35"
simple_logger = "=5.2.0"
portpicker = "=0.1.1"
my_internet_ip = "=0.1.1"
rand = "=0.8.8"
color-eyre = "=0.6.5"
simple-error = "=0.3.3"
glam = { version = "=0.23.0", features = ["serde"] }
uflow = "=0.7.1"
stereokit = "=0.16.9"
captis = "=0.6.1"
x11rb = "=0.14.0"
