[package]
name = "libfmod_ext"
version = "0.1.0"
edition = "2021"
publish = false

[dependencies]
fmod-oxide = "=0.2.2"
magnus = { version = "=0.7.1", features = ["rb-sys"] }
once_cell = "=1.21.4"
oneshot = { version = "=0.2.1", features = ["std"] }
rb-sys = "=0.9.130"
