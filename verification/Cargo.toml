[package]
name = "tutorial"
version = "0.1.0"
edition = "2021"
publish = false

[dependencies]
cortex-m = { version = "=0.7.10", features = ["critical-section-single-core", "inline-asm"] }
cortex-m-rt = "=0.7.7"
defmt = "=1.2.0"
defmt-rtt = "=1.3.1"
embassy-hal-internal = "=0.5.0"
embassy-stm32 = { version = "=0.6.0", features = ["stm32f407zg", "time-driver-any", "exti", "defmt", "memory-x"] }
embassy-sync = "=0.8.0"
embassy-time = { version = "=0.5.1", features = ["defmt", "defmt-timestamp-uptime", "tick-hz-32_768"] }
embedded-io-async = "=0.7.0"
panic-probe = { version = "=1.0.0", features = ["print-defmt"] }
