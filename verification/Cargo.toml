[package]
name = "fate"
version = "0.1.0"
edition = "2021"
publish = false

[dependencies]
base64 = "0.21"
image = { version = "0.24", default-features = false, features = ["jpeg", "png", "hdr"] }
gltf = { version = "1", features = ["KHR_lights_punctual", "KHR_materials_pbrSpecularGlossiness", "KHR_materials_unlit", "KHR_materials_emissive_strength"] }
vulkanalia = "0.23"
winit = "0.29"
rand = "0.8"
cgmath = "0.18"
