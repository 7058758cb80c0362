[package]
name = "xr_passthrough"
version = "0.1.0"
edition = "2021"
publish = false

[dependencies]
anyhow = "1"
ash = "=0.38.0"
bytemuck = { version = "1", features = ["derive"] }
ed25519-dalek = { version = "=3.0.0", features = ["rand_core"] }
env_logger = "*"
flate2 = "=1.1.10"
glam = "0.30"
image = { version = "=0.25.10", default-features = false, features = ["png"] }
itertools = "*"
log = "0.4"
nalgebra = "*"
nix = { version = "0.30", features = ["fs", "ioctl"] }
openxr = { version = "=0.22.0", features = ["loaded"] }
rand = "0.10"
renderdoc = "*"
serde = { version = "1", features = ["derive"] }
serde_json = "1"
smallvec = "1"
toml = "*"
udev = "*"
v4l = "*"
vulkano = "=0.35.2"
vulkano-shaders = "=0.35.0"
winit = "0.30"
xdg = "3"
