[package]
name = "zumito"
version = "0.1.0"
edition = "2021"
publish = false

[dependencies]
critical-section = "=1.2.0"
embassy-executor = "=0.6.3"
embassy-futures = "=0.1.2"
embassy-net = { version = "=0.4.0", features = ["dhcpv4", "dhcpv4-hostname", "medium-ethernet", "proto-ipv4", "udp"] }
embassy-sync = "=0.6.2"
embassy-time = "=0.3.2"
esp-alloc = "=0.5.0"
esp-backtrace = { version = "=0.14.2", features = ["esp32"] }
esp-hal = { version = "=0.22.0", features = ["esp32"] }
esp-hal-embassy = { version = "=0.5.0", features = ["esp32"] }
esp-println = { version = "=0.12.0", features = ["esp32"] }
esp-wifi = { version = "=0.11.0", features = ["esp32", "wifi"] }
heapless = "=0.8.0"
log = "=0.4.34"
static_cell = "=2.1.1"
