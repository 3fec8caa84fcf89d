[package]
name = "orengine"
version = "0.1.0"
edition = "2021"
publish = false

[dependencies]
bytemuck = { version = "1", features = ["derive"] }
egui = { version = "0.27", default-features = false, features = ["default_fonts"] }
glam = "0.27"
image = { version = "0.24", default-features = false, features = ["png", "jpeg"] }
pollster = "0.3"
thiserror = "1"
tobj = "4"
