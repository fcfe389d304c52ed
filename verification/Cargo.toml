[package]
name = "rustwii"
version = "0.1.0"
edition = "2021"
publish = false

[dependencies]
tokio = { version = "1", features = ["full"] }
qrcode = { version = "0.14", default-features = false, features = ["svg"] }
serde = { version = "1", features = ["derive"] }
serde_json = "1"
axum = { version = "0.7", features = ["ws"] }
axum-server = { version = "0.7", features = ["tls-rustls"] }
tower-http = { version = "0.6", features = ["fs", "cors"] }
rcgen = "0.13"
dioxus = { version = "0.6", default-features = false, features = ["macro", "html", "signals", "hooks", "launch", "router", "web"] }
web-sys = { version = "0.3", features = ["Window", "Navigator", "Location", "Performance", "Clipboard", "AudioContext", "BaseAudioContext", "AudioNode", "AudioParam", "AudioScheduledSourceNode", "OscillatorNode", "OscillatorType", "GainNode", "AudioDestinationNode"] }
wasm-bindgen = "0.2"
wasm-bindgen-futures = "0.4"
js-sys = "0.3"
gloo-net = "0.6"
gloo-timers = { version = "0.3", features = ["futures"] }
futures-util = { version = "0.3", features = ["sink"] }
futures-channel = "0.3"
