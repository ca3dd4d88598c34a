[package]
name = "df_texture_helper"
version = "0.1.0"
edition = "2021"
publish = false

[dependencies]
convert_case = "=0.6.0"
thiserror = "1"
image = { version = "0.24", default-features = false, features = ["png"] }
egui = { version = "0.27", default-features = false, features = ["default_fonts"] }
egui_plot = { version = "0.27", default-features = false }
