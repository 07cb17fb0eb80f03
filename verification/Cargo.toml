[package]
name = "qemu_display_listener"
version = "0.1.0"
edition = "2021"
publish = false

[dependencies]
zbus = "5"
zvariant = "5"
log = "0.4"
pretty_env_logger = "0.5"
async-trait = "0.1"
derivative = "2"
futures = "0.3"
qemu-display = "0.2"
vte4 = "0.10"
