[package]
name = "nowplaying"
version = "0.1.0"
edition = "2021"
publish = false

[dependencies]
httparse = "1"
heapless = { version = "0.8", features = ["serde"] }
serde = { version = "1", default-features = false, features = ["derive"] }
serde-json-core = "0.6"
embedded-hal = "1"
embedded-io-async = "*"
embedded-nal-async = "*"
embassy-time = "*"
embassy-net = { version = "*", features = ["tcp", "dns", "dhcpv4", "proto-ipv4", "medium-ethernet"] }
embassy-executor = "*"
embassy-rp = { version = "*", features = ["rp2040"] }
cyw43 = "*"
cyw43-pio = "*"
reqwless = "*"
defmt = "*"
defmt-rtt = "*"
panic-probe = "*"
static_cell = "*"
