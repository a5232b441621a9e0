[package]
name = "agon_libretro_core"
version = "0.1.0"
edition = "2021"
publish = false

[dependencies]
libretro-backend = "0.2"
libloading = "0.8"
ez80 = "*"
