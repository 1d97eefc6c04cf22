[package]
name = "flatkvm_agent"
version = "0.1.0"
edition = "2021"
publish = false

[dependencies]
shlex = "=1.3.0"
clap = "=2.34.0"
dbus = "=0.6.5"
libc = "=0.2.190"
log = "=0.4.34"
simplelog = "=0.12.2"
udev = "=0.3.0"
x11-clipboard = "=0.5.3"
