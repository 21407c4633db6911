[package]
name = "clef"
version = "0.1.0"
edition = "2021"
publish = false

[dependencies]
symphonia = { version = "=0.5.5", features = ["mp3"] }
camino = "=1.2.6"
anyhow = "=1.0.104"
thiserror = "=1.0.69"
log = "=0.4.35"
flume = "=0.10.14"
parking_lot = "=0.12.5"
once_cell = "=1.21.4"
itertools = "=0.10.5"
walkdir = "=2.5.0"
directories = "=4.0.1"
dirs = "=4.0.0"
pretty_env_logger = "=0.4.0"
diesel = { version = "2.1", features = ["sqlite", "r2d2"] }
diesel_migrations = "2.1"
r2d2 = "0.8"
image = { version = "0.24", default-features = false, features = ["jpeg", "png", "bmp"] }
