[package]
name = "payload"
version = "0.1.0"
edition = "2021"
publish = false

[dependencies]
backtrace = "0.3"
ctor = "*"
egl = "0.2"
egui = "*"
egui_glow = "*"
glow = "*"
libc = "0.2"
plt-rs = "*"
proc-maps = "*"
tracing = "0.1"
tracing-subscriber = "0.3"
