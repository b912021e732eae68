[package]
name = "battery_gateway"
version = "0.1.0"
edition = "2021"
publish = false

[dependencies]
bxcan = "=0.7.0"
embedded-hal = "=0.2.7"
heapless = "=0.7.17"
nb = "=1.1.0"
embassy-executor = { version = "=0.5.1", features = ["arch-std", "executor-thread"] }
embassy-futures = "=0.1.2"
embassy-stm32 = { version = "=0.1.0", features = ["stm32f107vc", "time-driver-tim3", "unstable-pac"] }
embassy-sync = "=0.5.0"
embassy-time = "=0.3.2"
miniserde = "=0.1.46"
