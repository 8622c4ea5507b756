[package]
name = "complementary_spwm"
version = "0.1.0"
edition = "2021"
publish = false

[dependencies]
cortex-m = "=0.7.10"
cortex-m-rt = "=0.7.7"
critical-section = "=1.2.0"
defmt = "=0.3.101"
embedded-hal = "=1.0.0"
rp2040-hal = { version = "=0.10.2", features = ["rt", "critical-section-impl"] }
rp-pico = "=0.9.0"
