[package]
name = "filament_changer"
version = "0.1.0"
edition = "2021"
publish = false

[dependencies]
embassy-executor = { version = "0.6", features = ["task-arena-size-20480"] }
embassy-time = "0.3"
esp-alloc = "0.5"
esp-backtrace = { version = "0.14", features = ["esp32", "exception-handler", "panic-handler", "println"] }
esp-hal = { version = "0.21", features = ["esp32"] }
esp-hal-embassy = { version = "0.4", features = ["esp32"] }
esp-println = { version = "0.12", features = ["esp32", "log"] }
log = "0.4"
