[package]
name = "quad_draw"
version = "0.1.0"
edition = "2021"
publish = false

[dependencies]
glam = "=0.10.2"
megaui = "=0.2.18"
miniquad = "=0.3.16"
quad-gl = "=0.2.13"
