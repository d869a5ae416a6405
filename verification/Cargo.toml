[package]
name = "strata"
version = "0.1.0"
edition = "2021"
publish = false

[dependencies]
gio = "*"
glib = "*"
gtk4 = "*"
tracing = "*"
