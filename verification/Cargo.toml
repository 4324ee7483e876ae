[package]
name = "window_sensor"
version = "0.1.0"
edition = "2021"
publish = false

[dependencies]
bt-hci = "*"
defmt = "*"
defmt-rtt = "*"
embassy-embedded-hal = "*"
embassy-executor = "*"
embassy-futures = "*"
embassy-nrf = "*"
embassy-sync = "*"
embassy-time = "*"
embedded-hal = "1"
embedded-storage = "*"
libm = "*"
lis2dtw12 = "*"
nrf-sdc = "*"
panic-probe = "*"
sensirion-i2c = "*"
sht4x = "*"
static_cell = "*"
tmag5273 = "*"

[dev-dependencies]
btsensor = "*"
uuid = "*"
