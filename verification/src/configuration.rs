//! How connections and channels are configured.

use vstd::prelude::*;

verus! {

/// Describes the set of ICE servers and protocols that should be employed
/// during connection establishment.
#[derive(Clone, Debug, PartialEq)]
pub struct IceConfiguration {
    /// The set of ICE servers that should be used to gather connection candidates.
    pub ice_servers: Vec<RtcIceServer>,
    /// The subset of ICE transports that should be considered.
    pub ice_transport_policy: RtcIceTransportPolicy,
}

impl Default for IceConfiguration {
    /// No servers, and all transports.
    fn default() -> (configuration: Self)
        ensures
            configuration.ice_servers@ == Seq::<RtcIceServer>::empty(),
            configuration.ice_transport_policy == RtcIceTransportPolicy::All,
    {
        IceConfiguration {
            ice_servers: Vec::new(),
            ice_transport_policy: RtcIceTransportPolicy::All,
        }
    }
}

/// Describes a server that may be utilized for peer-to-peer route discovery or communication.
#[derive(Clone, Debug, PartialEq)]
pub struct RtcIceServer {
    /// The set of URLs that may be used to connect to the server.
    pub urls: Vec<String>,
    /// The optional username that should be employed when connecting to the server.
    pub username: Option<String>,
    /// The optional credential that should be employed when connecting to the server.
    pub credential: Option<String>,
}

impl Default for RtcIceServer {
    /// No URLs, and neither a username nor a credential.
    fn default() -> (server: Self)
        ensures
            server.urls@ == Seq::<String>::empty(),
            server.username is None,
            server.credential is None,
    {
        RtcIceServer { urls: Vec::new(), username: None, credential: None }
    }
}

/// Determines the subset of ICE functionality that should be considered.
#[derive(Copy, Clone, Debug, PartialEq, Eq, Structural)]
pub enum RtcIceTransportPolicy {
    /// Both direct peer-to-peer connections and relay-based methods should be used.
    All,
    /// Only relay-based transport methods should be used.
    Relay,
}

impl Default for RtcIceTransportPolicy {
    /// All transports.
    fn default() -> (policy: Self)
        ensures
            policy == RtcIceTransportPolicy::All,
    {
        RtcIceTransportPolicy::All
    }
}

/// The part that a native peer takes where both peers make an offer.
#[derive(Copy, Clone, Debug, PartialEq, Eq, Structural)]
pub enum RtcCandidateMode {
    /// The peer insists on its own offer and waits for an answer.
    Host,
    /// The peer gives way to the offer of the other one.
    Client,
}

/// Describes how a native peer establishes a connection.
#[derive(Clone, Debug, PartialEq)]
pub struct RtcConfiguration {
    /// The servers and protocols to employ.
    pub ice_configuration: IceConfiguration,
    /// The part that the peer takes.
    pub mode: RtcCandidateMode,
}

/// A number of milliseconds, of which there is at least one.
#[derive(Copy, Clone, Debug, PartialEq, Eq)]
pub struct RtcPacketLifetime {
    milliseconds: u16,
}

impl RtcPacketLifetime {
    #[verifier::type_invariant]
    spec fn well_formed(self) -> bool {
        self.milliseconds != 0
    }

    /// The number of milliseconds.
    pub closed spec fn milliseconds(self) -> u16 {
        self.milliseconds
    }

    /// Makes a lifetime of a number of milliseconds, unless it is zero.
    pub fn new(milliseconds: u16) -> (lifetime: Option<Self>)
        ensures
            milliseconds == 0 ==> lifetime is None,
            milliseconds != 0 ==> (lifetime matches Some(l) && l.milliseconds() == milliseconds),
    {
        if milliseconds == 0 {
            None
        } else {
            Some(RtcPacketLifetime { milliseconds })
        }
    }

    /// The number of milliseconds.
    pub fn get(self) -> (milliseconds: u16)
        ensures
            milliseconds == self.milliseconds(),
            milliseconds != 0,
    {
        proof {
            use_type_invariant(&self);
        }
        self.milliseconds
    }
}

/// Describes the guarantees that a data channel should make regarding
/// how data is forwarded to the other side.
#[derive(Copy, Clone, Debug, PartialEq, Eq)]
pub enum RtcReliabilityMode {
    /// Data will always reach the other side, as long as the connection is maintained.
    Reliable(),
    /// The receiver should limit the maximum number of times a message may be retransmitted.
    /// Setting this to `0` creates an unreliable channel.
    MaxRetransmits(u16),
    /// The receiver should limit the maximum number of milliseconds in which a message
    /// may be transmitted.
    MaxPacketLifetime(RtcPacketLifetime),
}

/// Describes how a channel should be created.
#[derive(Clone, Debug)]
pub struct RtcDataChannelConfiguration {
    /// The human-readable label of the channel.
    pub label: String,
    /// Whether messages on the channel should be ordered or unordered.
    pub ordered: bool,
    /// How the data channel should deal with dropped messages and retransmissions.
    pub reliability: RtcReliabilityMode,
    /// The subprotocol that should be employed during data transmission.
    pub protocol: Option<String>,
}

impl Default for RtcDataChannelConfiguration {
    /// An ordered, reliable channel with an empty label and no subprotocol.
    fn default() -> (configuration: Self)
        ensures
            configuration.label@ == Seq::<char>::empty(),
            configuration.ordered,
            configuration.reliability == RtcReliabilityMode::Reliable(),
            configuration.protocol is None,
    {
        RtcDataChannelConfiguration {
            label: String::new(),
            ordered: true,
            reliability: RtcReliabilityMode::Reliable(),
            protocol: None,
        }
    }
}

} // verus!
