[package]
name = "royal_chess"
version = "0.1.0"
edition = "2021"
publish = false

[dependencies]
chess = "=3.2.0"
serde = { version = "=1.0.229", features = ["derive"] }
serde_json = "=1.0.154"
js-sys = "=0.3.107"
web-sys = { version = "=0.3.107", features = ["Window", "Storage", "AudioContext", "BaseAudioContext", "AudioNode", "AudioParam", "AudioDestinationNode", "AudioScheduledSourceNode", "OscillatorNode", "GainNode", "SpeechSynthesis", "SpeechSynthesisUtterance"] }
wasm-bindgen = "=0.2.130"
