[package]
name = "flappy"
version = "0.1.0"
edition = "2021"
publish = false

[dependencies]
bevy = { version = "=0.17.3", default-features = false, features = ["std", "async_executor", "multi_threaded", "bevy_asset", "bevy_camera", "bevy_color", "bevy_core_pipeline", "bevy_gizmos", "bevy_image", "bevy_input_focus", "bevy_log", "bevy_render", "bevy_shader", "bevy_sprite", "bevy_sprite_render", "bevy_state", "bevy_window", "bevy_winit", "png", "x11"] }
bevy_simple_screen_boxing = "=0.2.1"
rand = "=0.10.3"
