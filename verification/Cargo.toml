[package]
name = "spec_mtc"
version = "0.1.0"
edition = "2021"
publish = false

[dependencies]
cortex-m = { version = "0.7", features = ["inline-asm", "critical-section-single-core"] }
defmt = "0.3"
defmt-rtt = "0.4"
embassy-executor = { version = "=0.7.0", features = ["arch-spin", "executor-thread", "defmt"] }
embassy-stm32 = { version = "=0.2.0", features = ["defmt", "stm32h563zi", "time-driver-any", "memory-x"] }
embassy-time = { version = "=0.4.0", features = ["defmt", "tick-hz-32_768"] }
panic-probe = { version = "0.3", features = ["print-defmt"] }
