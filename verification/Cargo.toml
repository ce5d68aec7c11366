[package]
name = "boot_switch"
version = "0.1.0"
edition = "2021"
publish = false

[dependencies]
anyhow = "=1.0.104"
clap = { version = "=4.6.7", features = ["derive"] }
efivar = "=2.0.0"
windows = { version = "0.58", features = ["Win32_Foundation", "Win32_Security", "Win32_System_Shutdown", "Win32_System_Threading"] }
zbus = "=5.19.0"
