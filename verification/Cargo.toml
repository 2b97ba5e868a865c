[package]
name = "zeus_render"
version = "0.1.2"
edition = "2021"
publish = false

[dependencies]
regex = "1"
gfx-hal = "0.7"
gfx-backend-vulkan = "0.7"
gfx-auxil = "*"
winit = "0.24"
image = "0.22"
tobj = "2"
glsl-to-spirv = "0.1"
log = "0.4"
env_logger = "0.8"
