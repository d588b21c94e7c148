[package]
name = "axwatchdog"
version = "0.1.0"
edition = "2021"
publish = false

[dependencies]
axconfig = "=0.3.0-preview.3"
axcpu = "=0.3.1"
axipi = "=0.3.0-preview.3"
axplat = "=0.3.1-pre.6"
axtask = "=0.3.0-preview.3"
log = "=0.4.35"
