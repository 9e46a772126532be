[package]
name = "esp-led-steuerung"
version = "0.1.0"
edition = "2021"
publish = false

[dependencies]
defmt = "=1.2.0"
edge-mdns = "=0.8.0"
edge-nal = "=0.7.0"
edge-nal-embassy = "=0.9.0"
embassy-executor = "=0.10.0"
embassy-futures = "=0.1.2"
embassy-net = { version = "=0.9.1", features = ["tcp", "udp", "dns", "dhcpv4", "proto-ipv4", "medium-ethernet", "multicast"] }
embassy-sync = "=0.8.0"
embassy-time = "=0.5.1"
esp-alloc = "*"
esp-backtrace = "*"
esp-bootloader-esp-idf = "*"
esp-hal = "*"
esp-hal-smartled = "*"
esp-println = "*"
esp-radio = "*"
esp-rtos = "*"
picoserve = { version = "=0.20.1", features = ["embassy", "ws"] }
rand_core = "=0.10.1"
rgb = "=0.8.53"
rust-mqtt = "=0.6.0"
serde = { version = "=1.0.229", default-features = false, features = ["derive"] }
serde-json-core = "=0.7.0"
smart-leds-trait = "=0.3.2"
static_cell = "=2.1.1"
