[package]
name = "canary_watcher"
version = "0.1.0"
edition = "2021"
publish = false

[dependencies]
fuse = "0.3"
inotify = { version = "0.9", default-features = false }
libc = "0.2"
procinfo = "0.4"
time = "0.1"
