[package]
name = "rusty_dasher"
version = "0.1.0"
edition = "2021"
publish = false

[dependencies]
bevy = { version = "=0.19.1", default-features = false, features = ["bevy_state", "bevy_sprite", "bevy_sprite_render", "bevy_text", "bevy_window", "bevy_render", "bevy_core_pipeline", "bevy_asset"] }
serde = { version = "=1.0.229", features = ["derive"] }
serde_json = "=1.0.154"
wasm-bindgen = "=0.2.130"
web-sys = { version = "=0.3.107", features = ["Window", "Storage", "Document", "Element", "HtmlCanvasElement", "DomRect", "VisualViewport", "Location", "Performance"] }
