[package]
name = "debugui"
version = "0.1.0"
edition = "2021"
publish = false

[dependencies]
parking_lot = "0.12"
egui = "0.23"
egui-wgpu = "0.23"
egui-winit = "0.23"
wgpu = "0.17"
linkme = "0.3"
log = "0.4"
pollster = "0.3"
