[package]
name = "co2-sensor"
version = "0.1.0"
edition = "2021"
publish = false

[dependencies]
cortex-m = "=0.7.10"
critical-section = { version = "=1.2.0", features = ["std"] }
defmt = "=1.2.0"
defmt-rtt = "=1.3.1"
embedded-hal = "=1.0.0"
fugit = "=0.3.9"
nrf52840-hal = "=0.19.0"
panic-probe = "=1.0.0"
rand_core = "=0.6.4"
rtic = { version = "=2.4.0", features = ["thumbv7-backend"] }
rtic-monotonics = { version = "=2.2.1", features = ["nrf52840"] }
smoltcp = { version = "=0.12.0", default-features = false, features = ["medium-ethernet", "proto-ipv4", "proto-dhcpv4", "socket-dhcpv4", "socket-udp"] }
static_cell = "=2.1.1"
usb-device = "=0.3.2"
usbd-ethernet = "=0.4.0"
