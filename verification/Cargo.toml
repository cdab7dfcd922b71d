[package]
name = "wifi_bringup"
version = "0.1.0"
edition = "2021"
publish = false

[dependencies]
cyw43 = "=0.1.0"
cyw43-pio = "=0.1.0"
embassy-executor = "=0.5.1"
embassy-net = { version = "=0.4.0", features = ["proto-ipv4", "proto-ipv6", "medium-ethernet", "tcp", "udp", "dns"] }
embassy-rp = "=0.1.0"
embassy-time = "=0.3.2"
heapless = "0.8"
static_cell = "2"
