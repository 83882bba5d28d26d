[package]
name = "ws_gio"
version = "0.1.0"
edition = "2021"
publish = false

[dependencies]
ng-tungstenite = "*"
gio = "*"
glib = "*"
futures-io = "*"
