[package]
name = "oled_progress"
version = "0.1.0"
edition = "2021"
publish = false

[dependencies]
heapless = "=0.8.0"
embedded-graphics = "=0.8.2"
ssd1309 = "=0.4.0"
display-interface-spi = "0.4.1"
embassy-time = "=0.5.1"
cortex-m-rt = "=0.7.7"
defmt = "=1.2.0"
defmt-rtt = "=1.3.1"
panic-probe = { version = "=1.0.0", features = ["print-defmt"] }
static_cell = "=2.1.1"
