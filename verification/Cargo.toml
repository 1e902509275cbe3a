[package]
name = "gband"
version = "0.1.0"
edition = "2021"
publish = false

[dependencies]
bytemuck = { version = "1.7", features = ["derive"] }
flexi_logger = "0.22"
futures = "0.3"
gilrs = "0.8"
image = { version = "0.24", default-features = false, features = ["png"] }
log = "0.4"
native-dialog = "0.6"
structopt = "0.3"
strum = "0.23"
strum_macros = "0.23"
wgpu = "0.12"
winit = "0.26"
