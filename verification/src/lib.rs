//! Platform independent data channels.
//!
//! The decisions behind WebRTC data channels: how session descriptions and ICE candidates are
//! exchanged until a set of channels is open, how each platform is configured, and how messages
//! and errors travel through an open channel. Sockets, threads and futures belong to the program
//! around this library, which performs the operations that the library asks for and reports back.

pub mod channel;
pub mod configuration;
pub mod error;
pub mod exchange;
pub mod history;
pub mod laws;
pub mod message;
pub mod native;
pub mod negotiation;
pub mod poll;
pub mod sdp;
pub mod text;
pub mod web;

pub use crate::channel::{RtcDataChannel, RtcDataChannelHandlerState, RtcDataChannelReadyState};
pub use crate::configuration::{
    IceConfiguration, RtcCandidateMode, RtcConfiguration, RtcDataChannelConfiguration,
    RtcIceServer, RtcIceTransportPolicy, RtcPacketLifetime, RtcReliabilityMode,
};
pub use crate::error::{RtcDataChannelError, RtcPeerConnectionError};
pub use crate::message::{
    RtcIceCandidate, RtcNegotiationMessage, RtcNegotiationNotification, RtcSdpType,
    RtcSessionDescription,
};
pub use crate::negotiation::{RtcAction, RtcNegotiation, RtcPhase};
pub use crate::poll::{PollFuture, RtcPoll};
