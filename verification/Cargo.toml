[package]
name = "usrs_cli"
version = "0.1.0"
edition = "2021"
publish = false

[dependencies]
alto = "=3.0.4"
clap = "=4.6.7"
env_logger = "=0.11.11"
glib = "=0.10.3"
gstreamer = "=0.16.7"
log = "=0.4.34"
pitch_calc = "=0.12.0"
reqwest = { version = "=0.13.5", default-features = false, features = ["blocking"] }
serde = "=1.0.229"
serde_derive = "=1.0.229"
serde_json = "=1.0.151"
tempfile = "=3.27.0"
termion = "=4.0.6"
ultrastar-txt = "=0.1.3"
youtube_dl = "=0.10.0"
