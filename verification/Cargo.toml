[package]
name = "tls_session"
version = "0.1.0"
edition = "2021"
publish = false

[dependencies]
rustls = { version = "=0.23.46", default-features = false, features = ["std", "ring", "tls12"] }
webpki-roots = "=1.0.11"
defmt = "=1.2.0"
defmt-rtt = "=1.3.1"
panic-probe = "=1.0.0"
embassy-executor = { version = "=0.10.0", features = ["platform-std", "executor-thread"] }
embassy-futures = "=0.1.2"
embassy-net = { version = "=0.9.1", features = ["tcp", "udp", "dns", "dhcpv4", "medium-ethernet", "proto-ipv4"] }
embassy-stm32 = { version = "=0.6.0", features = ["stm32f429zi"] }
embassy-sync = "=0.8.0"
embassy-time = "=0.5.1"
embedded-io-async = "=0.7.0"
getrandom = { version = "=0.2.17", features = ["custom"] }
spin = "=0.12.3"
static_cell = "=2.1.1"
tlsf = "=1.1.0"
