[package]
name = "hadeda"
version = "0.1.0"
edition = "2021"
publish = false

[dependencies]
ahrs = "=0.8.0"
critical-section = "=1.2.0"
esp-alloc = "=0.11.0"
esp-backtrace = "=0.20.0"
esp-println = "=0.18.0"
faer = "=0.24.4"
icm42670 = "=0.2.0"
matfile = "=0.5.0"
microfft = "=0.6.0"
nalgebra = "=0.34.2"
nb = "=1.1.0"
serde = { version = "=1.0.229", features = ["derive"] }
shared-bus = "=0.3.1"
thiserror = "=2.0.21"

[dev-dependencies]
critical-section = { version = "=1.2.0", features = ["std"] }
