[package]
name = "smc_telemetry"
version = "0.1.0"
edition = "2021"
publish = false

[dependencies]
io-kit-sys = "*"
mach = "*"
metal = "*"
num_cpus = "*"
serde = { version = "*", features = ["derive"] }
sysinfo = "*"
