[package]
name = "rk-bar"
version = "0.1.0"
edition = "2021"
publish = false

[dependencies]
chrono = "0.4"
swayipc = "2"
gtk = "0.9"
gdk = "0.13"
glib = "0.10"
gtk-layer-shell = "0.2"
