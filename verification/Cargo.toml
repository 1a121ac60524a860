[package]
name = "st7789_pipeline"
version = "0.1.0"
edition = "2021"
publish = false

[dependencies]
display-interface = "=0.5.0"
display-interface-spi = "=0.5.0"
embedded-gfx = "=0.1.0"
embedded-graphics = "=0.8.2"
embedded-hal = "=1.0.0"
esp-idf-hal = "=0.47.0"
esp-idf-svc = "=0.53.0"
log = "=0.4.34"
nalgebra = "=0.32.6"
