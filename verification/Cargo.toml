[package]
name = "zandronum_launcher"
version = "2.0.5"
edition = "2021"
publish = false

[dependencies]
glob = "0.3"
shellexpand = { version = "3", default-features = false, features = ["base-0"] }
shlex = "1"
gtk4 = { version = "0.8", features = ["v4_12"] }
libadwaita = { version = "0.6", features = ["v1_5"] }
