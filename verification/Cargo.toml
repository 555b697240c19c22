[package]
name = "console_logger"
version = "0.1.0"
edition = "2021"
publish = false

[dependencies]
esp-alloc = "0.4.0"
esp-backtrace = { version = "0.13.0", features = ["esp32c3", "exception-handler", "panic-handler", "println"] }
esp-hal = { version = "0.19.0", features = ["esp32c3"] }
esp-println = { version = "0.10.0", features = ["esp32c3"] }
log = "0.4"
serde = { version = "1.0", default-features = false, features = ["alloc", "derive"] }
serde_json = { version = "1.0", default-features = false, features = ["alloc"] }
