[package]
name = "wavy"
version = "0.1.0"
edition = "2021"
publish = false

[dependencies]
fon = "=0.4.0"
wasm-bindgen = "=0.2.129"
web-sys = { version = "=0.3.106", features = ["Window", "Navigator", "MediaDevices", "MediaStream", "MediaStreamAudioSourceNode", "MediaStreamAudioSourceOptions", "MediaStreamConstraints", "AudioContext", "AudioNode"] }
