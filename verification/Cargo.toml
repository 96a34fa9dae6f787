[package]
name = "mini_alpha"
version = "0.1.0"
edition = "2021"
publish = false

[dependencies]
anyhow = "1"
crossbeam = "0.8"
display-interface = "0.4"
display-interface-spi = "0.4"
embedded-graphics = "0.7"
embedded-hal = "0.2"
esp-idf-hal = "0.42"
esp-idf-svc = "0.47"
esp-idf-sys = "0.33"
nb = "1"
num = "0.4"
ordered-float = "3"
rotary-encoder-embedded = "0.2"
ssd1309 = "0.3"
thiserror = "1"
