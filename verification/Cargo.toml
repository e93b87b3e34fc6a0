[package]
name = "amethyst_imgui"
version = "0.1.0"
edition = "2021"
publish = false

[dependencies]
gfx = "0.17"
glsl-layout = "0.1"
imgui = "0.0.21"
imgui-gfx-renderer = "0.0.21"
shred = "0.7"
