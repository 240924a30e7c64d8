[package]
name = "rog_control"
version = "0.1.0"
edition = "2021"
publish = false

[dependencies]
dirs = "6"
futures-lite = "2"
inotify = { version = "*", features = ["stream"] }
libc = "0.2"
log = "0.4"
mio = { version = "*", features = ["os-poll", "os-ext"] }
serde = { version = "1", features = ["derive"] }
tokio = { version = "1", features = ["macros", "sync", "time", "rt", "rt-multi-thread"] }
udev = "*"
zbus = "5"
