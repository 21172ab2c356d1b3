[package]
name = "esp32_http_servo"
version = "0.1.0"
edition = "2021"
publish = false

[dependencies]
critical-section = { version = "=1.2.0", features = ["std"] }
embassy-executor = "0.9"
embassy-futures = "=0.1.2"
embassy-net = { version = "=0.9.1", features = ["tcp", "dhcpv4", "medium-ethernet"] }
embassy-sync = "=0.7.2"
embassy-time = "=0.5.1"
embedded-graphics = "=0.8.2"
embedded-storage = "=0.3.2"
heapless = "=0.8.0"
picoserve = { version = "=0.20.1", features = ["embassy"] }
ssd1306 = "=0.10.0"
static_cell = "=2.1.1"
trouble-host = { version = "0.5", features = ["derive", "peripheral", "gatt"] }
