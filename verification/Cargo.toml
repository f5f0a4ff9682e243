[package]
name = "core_widgets"
version = "0.1.0"
edition = "2021"
publish = false

[dependencies]
accesskit = "0.18"
bevy_a11y = "0.16"
bevy_app = "0.16"
bevy_ecs = "0.16"
bevy_input = "0.16"
bevy_input_focus = "0.16"
bevy_picking = { version = "0.16", default-features = false }
