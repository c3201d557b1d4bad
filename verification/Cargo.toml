[package]
name = "co2_sensor"
version = "0.1.0"
edition = "2021"
publish = false

[dependencies]
heapless = "=0.8.0"
embassy-time = { version = "=0.5.1", features = ["std"] }
embassy-sync = "=0.7.2"
embassy-executor = "=0.9.1"
embassy-embedded-hal = "=0.5.0"
embedded-graphics = "=0.8.2"
display-interface = "=0.5.0"
ssd1306 = { version = "=0.10.0", features = ["async"] }
scd4x = { version = "=0.5.0", features = ["embedded-hal-async"] }
static_cell = "=2.1.1"
log = "=0.4.35"
esp-hal = "=1.2.2"
esp-rtos = "=0.4.0"
esp-bootloader-esp-idf = "=0.6.0"
esp-println = "=0.18.0"
esp-alloc = "=0.11.0"
