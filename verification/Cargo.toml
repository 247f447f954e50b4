[package]
name = "grimoire"
version = "0.1.0"
edition = "2021"
publish = false

[dependencies]
byte-slice-cast = "0.2"
chrono = "0.4"
clap = "2"
env_logger = "0.6"
failure = "0.1"
gleam = "*"
glsl-include = "*"
gstreamer = "0.12"
gstreamer-app = "0.12"
gstreamer-audio = "0.12"
gstreamer-video = "0.12"
image = "0.19"
lazy_static = "1"
log = "0.4"
notify = "4"
regex = "1"
sdl2 = "0.32"
serde = "1"
serde_derive = "1"
toml = "0.4"
walkdir = "2"
