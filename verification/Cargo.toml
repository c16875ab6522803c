[package]
name = "systemd_gui"
version = "0.1.0"
edition = "2021"
publish = false

[dependencies]
gdk = "0.5"
gtk = "0.1"
pango = "0.1"
