[package]
name = "preach"
version = "0.1.0"
edition = "2021"
publish = false

[dependencies]
arc-swap = "1"
datachannel = "*"
js-sys = "0.3"
send_wrapper = { version = "0.6", features = ["futures"] }
serde = { version = "1", features = ["derive"] }
thiserror = "1"
wasm-bindgen = "0.2"
wasm-bindgen-futures = "0.4"
wasm_main_executor = "*"
web-sys = { version = "0.3", features = ["Window", "MessageEvent", "RtcConfiguration", "RtcDataChannel", "RtcDataChannelInit", "RtcDataChannelType", "RtcIceCandidate", "RtcIceCandidateInit", "RtcIceServer", "RtcIceTransportPolicy", "RtcOfferOptions", "RtcPeerConnection", "RtcPeerConnectionIceEvent", "RtcSdpType", "RtcSessionDescription", "RtcSessionDescriptionInit"] }
webrtc-sdp = "0.3"

[dev-dependencies]
tokio = { version = "1", features = ["rt"] }
