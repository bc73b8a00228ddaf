[package]
name = "chess_position_trainer"
version = "0.1.0"
edition = "2021"
publish = false

[dependencies]
shakmaty = "=0.27.3"
gtk = "=0.18.2"
gdk = "=0.18.2"
gdk-pixbuf = "=0.18.5"
gio = "=0.18.4"
glib = "=0.18.5"
cairo-rs = "=0.18.5"
