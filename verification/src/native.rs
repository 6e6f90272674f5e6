//! Data channels on native platforms.

use vstd::prelude::*;
use vstd::string::*;
use std::collections::VecDeque;
use webrtc_sdp::SdpSession;

use crate::configuration::{
    IceConfiguration, RtcCandidateMode, RtcConfiguration, RtcDataChannelConfiguration,
    RtcIceServer, RtcIceTransportPolicy, RtcReliabilityMode,
};
use crate::error::RtcPeerConnectionError;
use crate::history::{NegotiationHistory, RemoteOperation, RtcEvent};
use crate::message::{
    RtcIceCandidate, RtcNegotiationMessage, RtcNegotiationNotification, RtcSdpType,
    RtcSessionDescription,
};
use crate::negotiation::{channel_id, queue, RtcAction, RtcNegotiation, RtcPhase};
use crate::sdp::{parse_session, session_to_string};
use crate::text::strip_prefix;

verus! {

/// The URL of a relay with the name and the credential of its user put in front of the host. A
/// credential without a name is left out.
pub open spec fn ice_url(
    url: Seq<char>,
    username: Option<Seq<char>>,
    credential: Option<Seq<char>>,
) -> Seq<char> {
    match (username, credential) {
        (Some(name), Some(secret)) => "turn:"@ + name + ":"@ + secret + "@"@ + url,
        (Some(name), None) => "turn:"@ + name + "@"@ + url,
        (None, _) => "turn:"@ + url,
    }
}

/// The text of an optional string.
pub open spec fn optional_text(text: Option<String>) -> Option<Seq<char>> {
    match text {
        Some(text) => Some(text@),
        None => None,
    }
}

/// A URL of a server as the connection takes it: the URL of a relay names the user.
pub open spec fn native_url(url: Seq<char>, server: RtcIceServer) -> Seq<char> {
    if "turn:"@.is_prefix_of(url) {
        ice_url(
            url.skip("turn:"@.len() as int),
            optional_text(server.username),
            optional_text(server.credential),
        )
    } else {
        url
    }
}

/// The URLs of a server as the connection takes them, in order.
pub open spec fn native_urls(server: RtcIceServer) -> Seq<Seq<char>> {
    server.urls@.map_values(|url: String| native_url(url@, server))
}

/// The texts of a list of strings.
pub open spec fn texts(strings: Seq<String>) -> Seq<Seq<char>> {
    strings.map_values(|string: String| string@)
}

/// Puts the name and the credential of its user into the URL of a relay.
pub fn format_ice_url(url: &str, username: Option<&str>, credential: Option<&str>) -> (formatted:
    String)
    ensures
        formatted@ == ice_url(
            url@,
            match username {
                Some(name) => Some(name@),
                None => None,
            },
            match credential {
                Some(secret) => Some(secret@),
                None => None,
            },
        ),
{
    let mut formatted: String = "turn:".to_string();
    if let Some(name) = username {
        formatted.append(name);
        if let Some(secret) = credential {
            formatted.append(":");
            formatted.append(secret);
        }
        formatted.append("@");
    }
    formatted.append(url);
    formatted
}

/// How a native connection is configured.
#[derive(Debug, PartialEq)]
pub struct RtcConfig {
    /// The URLs of the servers.
    pub ice_servers: Vec<String>,
    /// The subset of ICE transports that should be considered.
    pub ice_transport_policy: RtcIceTransportPolicy,
}

impl RtcConfig {
    /// Whether this configures a native connection as described: with the URLs of all servers, in
    /// order, and with the same policy.
    pub open spec fn configures(self, configuration: IceConfiguration) -> bool {
        &&& texts(self.ice_servers@) == configuration.ice_servers@.map_values(
            |server: RtcIceServer| native_urls(server),
        ).flatten()
        &&& self.ice_transport_policy == configuration.ice_transport_policy
    }

    /// Describes a native connection.
    pub fn from(configuration: &IceConfiguration) -> (config: Self)
        ensures
            config.configures(*configuration),
    {
        let mut urls: Vec<String> = Vec::new();
        let servers = &configuration.ice_servers;
        let ghost lists = servers@.map_values(|server: RtcIceServer| native_urls(server));
        let mut i: usize = 0;
        proof {
            assert(texts(urls@) =~= lists.take(0).flatten());
        }
        while i < servers.len()
            invariant
                i <= servers.len(),
                lists == servers@.map_values(|server: RtcIceServer| native_urls(server)),
                texts(urls@) == lists.take(i as int).flatten(),
            decreases servers.len() - i,
        {
            let ghost before = urls@;
            add_urls(&servers[i], &mut urls);
            proof {
                assert(lists.take(i + 1) =~= lists.take(i as int).push(lists[i as int]));
                lists.take(i as int).lemma_flatten_push(lists[i as int]);
                assert(texts(urls@) =~= texts(before) + native_urls(servers@[i as int]));
            }
            i += 1;
        }
        assert(lists.take(servers@.len() as int) =~= lists);
        RtcConfig { ice_servers: urls, ice_transport_policy: configuration.ice_transport_policy }
    }
}

/// Adds the URLs of a server to a list.
fn add_urls(server: &RtcIceServer, urls: &mut Vec<String>)
    ensures
        texts(final(urls)@) == texts(old(urls)@) + native_urls(*server),
{
    let username: Option<&str> = match &server.username {
        Some(name) => Some(name.as_str()),
        None => None,
    };
    let credential: Option<&str> = match &server.credential {
        Some(secret) => Some(secret.as_str()),
        None => None,
    };
    let mut j: usize = 0;
    assert(texts(urls@) =~= texts(old(urls)@) + native_urls(*server).take(0));
    while j < server.urls.len()
        invariant
            j <= server.urls.len(),
            username matches Some(name) ==> (server.username matches Some(n) && n@ == name@),
            username is None ==> server.username is None,
            credential matches Some(secret) ==> (server.credential matches Some(s) && s@
                == secret@),
            credential is None ==> server.credential is None,
            texts(urls@) == texts(old(urls)@) + native_urls(*server).take(j as int),
        decreases server.urls.len() - j,
    {
        let ghost before = urls@;
        let url = server.urls[j].as_str();
        let native: String = match strip_prefix(url, "turn:") {
            Some(rest) => {
                proof {
                    assert("turn:"@.is_prefix_of(url@));
                    assert(url@.skip("turn:"@.len() as int) =~= rest@);
                }
                format_ice_url(rest, username, credential)
            },
            None => url.to_string(),
        };
        urls.push(native);
        proof {
            assert(native@ == native_urls(*server)[j as int]);
            assert(texts(urls@) =~= texts(before).push(native@));
            assert(native_urls(*server).take(j + 1) =~= native_urls(*server).take(j as int).push(
                native_urls(*server)[j as int],
            ));
            assert(texts(urls@) =~= texts(old(urls)@) + native_urls(*server).take(j + 1));
        }
        j += 1;
    }
    assert(native_urls(*server).take(server.urls@.len() as int) =~= native_urls(*server));
}

/// How reliably a native channel delivers.
#[derive(Copy, Clone, Debug, PartialEq, Eq, Structural)]
pub struct Reliability {
    /// Whether messages may overtake each other.
    pub unordered: bool,
    /// Whether messages may be lost.
    pub unreliable: bool,
    /// The number of milliseconds after which a message is given up.
    pub max_packet_life_time: u16,
    /// The number of retransmissions after which a message is given up.
    pub max_retransmits: u16,
}

/// How a native channel is created.
#[derive(Debug, PartialEq)]
pub struct DataChannelInit {
    /// The subprotocol of the channel.
    pub protocol: String,
    /// How reliably the channel delivers.
    pub reliability: Reliability,
    /// Whether both peers create the channel, so that it is not announced to the other one.
    pub negotiated: bool,
    /// Whether the number of the channel is given.
    pub manual_stream: bool,
    /// The number of the channel.
    pub stream: u16,
}

impl DataChannelInit {
    /// Whether this creates a channel as described, under a number that both peers know
    /// beforehand.
    pub open spec fn creates(self, configuration: RtcDataChannelConfiguration, stream: int) -> bool {
        &&& self.protocol@ == match configuration.protocol {
            Some(protocol) => protocol@,
            None => Seq::empty(),
        }
        &&& self.reliability == Reliability {
            unordered: !configuration.ordered,
            unreliable: configuration.reliability != RtcReliabilityMode::Reliable(),
            max_packet_life_time: match configuration.reliability {
                RtcReliabilityMode::MaxPacketLifetime(lifetime) => lifetime.milliseconds(),
                _ => 0,
            },
            max_retransmits: match configuration.reliability {
                RtcReliabilityMode::MaxRetransmits(count) => count,
                _ => 0,
            },
        }
        &&& self.negotiated
        &&& self.manual_stream
        &&& self.stream == stream
    }

    /// Describes a native channel, under the number zero.
    pub fn from(configuration: &RtcDataChannelConfiguration) -> (init: Self)
        ensures
            init.creates(*configuration, 0),
    {
        let protocol: String = match &configuration.protocol {
            Some(protocol) => protocol.clone(),
            None => String::new(),
        };
        let reliability: Reliability = match configuration.reliability {
            RtcReliabilityMode::Reliable() => Reliability {
                unordered: !configuration.ordered,
                unreliable: false,
                max_packet_life_time: 0,
                max_retransmits: 0,
            },
            RtcReliabilityMode::MaxRetransmits(count) => Reliability {
                unordered: !configuration.ordered,
                unreliable: true,
                max_packet_life_time: 0,
                max_retransmits: count,
            },
            RtcReliabilityMode::MaxPacketLifetime(lifetime) => Reliability {
                unordered: !configuration.ordered,
                unreliable: true,
                max_packet_life_time: lifetime.get(),
                max_retransmits: 0,
            },
        };
        DataChannelInit { protocol, reliability, negotiated: true, manual_stream: true, stream: 0 }
    }

    /// Gives the channel a number.
    pub fn stream(self, stream: u16) -> (init: Self)
        ensures
            init == (DataChannelInit { stream, ..self }),
    {
        let mut init: DataChannelInit = self;
        init.stream = stream;
        init
    }
}

/// A session description that a native connection can take.
#[derive(Debug)]
pub struct SessionDescription {
    /// The parsed description.
    pub sdp: SdpSession,
    /// The role of the description.
    pub sdp_type: RtcSdpType,
}

/// What a native connection has to do.
#[derive(Debug)]
pub enum RtcOperation {
    /// Create the connection.
    CreateConnection(RtcConfig),
    /// Create a channel with a label.
    CreateChannel(String, DataChannelInit),
    /// Take the description of the remote session.
    SetRemoteDescription(SessionDescription),
    /// Take a candidate of the remote peer.
    AddRemoteCandidate(RtcIceCandidate),
}

/// Whether a peer follows a remote description of the given role: a host does not follow an offer.
pub open spec fn accepts(mode: RtcCandidateMode, sdp_type: RtcSdpType) -> bool {
    mode != RtcCandidateMode::Host || sdp_type != RtcSdpType::Offer
}

/// The operations that apply candidates, one by one.
pub open spec fn additions(candidates: Seq<RtcIceCandidate>) -> Seq<RtcOperation> {
    candidates.map_values(|candidate: RtcIceCandidate| RtcOperation::AddRemoteCandidate(candidate))
}

/// Whether `parsed` is what becomes of the text of a description.
pub open spec fn is_parse(parsed: Result<SdpSession, String>, sdp: Seq<char>) -> bool {
    match crate::sdp::sdp_parse(sdp, false) {
        Ok(session) => parsed == Ok::<SdpSession, String>(session),
        Err(error) => parsed matches Err(reason) && reason@ == crate::sdp::sdp_error_text(error),
    }
}

/// What a candidate calls for, and which candidates wait afterwards: it is applied where there is
/// a remote description, and waits otherwise.
pub open spec fn candidate_plan(
    candidates: Seq<RtcIceCandidate>,
    known: bool,
    candidate: RtcIceCandidate,
) -> (Seq<RtcIceCandidate>, Result<Seq<RtcOperation>, RtcPeerConnectionError>) {
    if known {
        (candidates, Ok(seq![RtcOperation::AddRemoteCandidate(candidate)]))
    } else {
        (candidates.push(candidate), Ok(Seq::empty()))
    }
}

/// What a first description calls for, and which candidates wait afterwards: a description that
/// cannot be parsed is an error; one that the peer follows is set, and all waiting candidates are
/// applied after it, in the order in which they arrived.
pub open spec fn description_plan(
    mode: RtcCandidateMode,
    candidates: Seq<RtcIceCandidate>,
    parsed: Result<SdpSession, String>,
    sdp_type: RtcSdpType,
) -> (Seq<RtcIceCandidate>, Result<Seq<RtcOperation>, RtcPeerConnectionError>) {
    match parsed {
        Ok(sdp) => if accepts(mode, sdp_type) {
            (
                Seq::empty(),
                Ok(
                    seq![RtcOperation::SetRemoteDescription(SessionDescription { sdp, sdp_type })]
                        + additions(candidates),
                ),
            )
        } else {
            (candidates, Ok(Seq::empty()))
        },
        Err(reason) => (candidates, Err(RtcPeerConnectionError::Negotiation(reason))),
    }
}

/// What a message from the remote peer calls for, and which candidates wait afterwards. `parsed`
/// is what becomes of the text of a description.
pub open spec fn plan(
    mode: RtcCandidateMode,
    candidates: Seq<RtcIceCandidate>,
    known: bool,
    message: RtcNegotiationMessage,
    parsed: Result<SdpSession, String>,
) -> (Seq<RtcIceCandidate>, Result<Seq<RtcOperation>, RtcPeerConnectionError>) {
    match message {
        RtcNegotiationMessage::RemoteCandidate(candidate) => candidate_plan(
            candidates,
            known,
            candidate,
        ),
        RtcNegotiationMessage::RemoteSessionDescription(description) => if known {
            (candidates, Ok(Seq::empty()))
        } else {
            description_plan(
                mode,
                candidates,
                parsed,
                RtcSdpType::of_text(description.sdp_type@),
            )
        },
    }
}

/// Whether `parsed` is what becomes of the text of a message, where that is a first description.
pub open spec fn is_message_parse(
    parsed: Result<SdpSession, String>,
    known: bool,
    message: RtcNegotiationMessage,
) -> bool {
    match message {
        RtcNegotiationMessage::RemoteSessionDescription(description) => known || is_parse(
            parsed,
            description.sdp@,
        ),
        RtcNegotiationMessage::RemoteCandidate(_) => true,
    }
}

/// The outcome of planning, with a list seen as a sequence.
pub open spec fn outcome_view(outcome: Result<Vec<RtcOperation>, RtcPeerConnectionError>) -> Result<
    Seq<RtcOperation>,
    RtcPeerConnectionError,
> {
    match outcome {
        Ok(operations) => Ok(operations@),
        Err(error) => Err(error),
    }
}

/// Whether these are the operations that set a native connection up: the connection comes first,
/// then each channel, in order, under its label and its number.
pub open spec fn sets_up(
    operations: Seq<RtcOperation>,
    configuration: IceConfiguration,
    channels: Seq<RtcDataChannelConfiguration>,
) -> bool {
    &&& operations.len() > 0
    &&& operations.first() matches RtcOperation::CreateConnection(config) && config.configures(
        configuration,
    )
    &&& creates_channels(operations.drop_first(), channels)
}

/// Whether these operations create the channels as described, in order.
pub open spec fn creates_channels(
    operations: Seq<RtcOperation>,
    channels: Seq<RtcDataChannelConfiguration>,
) -> bool {
    &&& operations.len() == channels.len()
    &&& forall|i: int|
        0 <= i < channels.len() ==> creates_channel(#[trigger] operations[i], channels[i], i)
}

/// Whether an operation creates a channel as described.
pub open spec fn creates_channel(
    operation: RtcOperation,
    configuration: RtcDataChannelConfiguration,
    index: int,
) -> bool {
    operation matches RtcOperation::CreateChannel(label, init) && label@ == configuration.label@
        && init.creates(configuration, index % 0x1_0000)
}

/// Manages the establishment of a native connection with a remote peer.
#[derive(Debug)]
pub struct RtcPeerConnector {
    /// The part that this peer takes.
    pub mode: RtcCandidateMode,
    /// The negotiation of the connection.
    pub negotiation: RtcNegotiation<RtcOperation>,
}

impl RtcPeerConnector {
    /// Begins to connect to a remote peer, and returns the first action.
    pub fn connect(
        configuration: &RtcConfiguration,
        channel_configurations: &Vec<RtcDataChannelConfiguration>,
    ) -> (begun: (Self, RtcAction<RtcOperation>))
        ensures
            begun.0.mode == configuration.mode,
            begun.0.negotiation@.well_formed(),
            exists|operations: Seq<RtcOperation>|
                #![trigger sets_up(
                    operations,
                    configuration.ice_configuration,
                    channel_configurations@,
                )]
                {
                    &&& sets_up(
                        operations,
                        configuration.ice_configuration,
                        channel_configurations@,
                    )
                    &&& (begun.0.negotiation@, begun.1)
                        == crate::negotiation::NegotiationView::initial(
                        channel_configurations@.len(),
                        operations,
                    ).advance()
                },
    {
        let mut operations: Vec<RtcOperation> = Vec::new();
        operations.push(
            RtcOperation::CreateConnection(RtcConfig::from(&configuration.ice_configuration)),
        );
        let mut channels: Vec<RtcOperation> = create_channels(channel_configurations);
        let ghost creations = channels@;
        operations.append(&mut channels);
        assert(operations@.drop_first() =~= creations);
        assert(sets_up(operations@, configuration.ice_configuration, channel_configurations@));
        let (negotiation, action) = RtcNegotiation::begin(channel_configurations.len(), operations);
        (RtcPeerConnector { mode: configuration.mode, negotiation }, action)
    }

    /// Takes note of whether the connection has a remote description, and handles the next message
    /// from the remote peer accordingly.
    pub fn remote_description(&mut self, known: bool) -> (action: RtcAction<RtcOperation>)
        requires
            old(self).negotiation@.well_formed(),
            old(self).negotiation.phase == RtcPhase::Inspecting,
        ensures
            final(self).mode == old(self).mode,
            final(self).negotiation@.well_formed(),
            exists|parsed: Result<SdpSession, String>|
                #![trigger is_message_parse(parsed, known, old(self).negotiation.message->0)]
                {
                    &&& is_message_parse(parsed, known, old(self).negotiation.message->0)
                    &&& (final(self).negotiation@, action) == {
                        let planned = plan(
                            old(self).mode,
                            old(self).negotiation@.candidate_buffer,
                            known,
                            old(self).negotiation.message->0,
                            parsed,
                        );
                        old(self).negotiation@.inspected(planned.0, planned.1)
                    }
                },
    {
        let message = self.negotiation.message.take().unwrap();
        let outcome = receive_negotiation_message(
            self.mode,
            &mut self.negotiation.candidate_buffer,
            known,
            message,
        );
        self.negotiation.inspected(outcome)
    }
}

/// Lists the operations that create the channels.
pub fn create_channels(configurations: &Vec<RtcDataChannelConfiguration>) -> (operations: Vec<
    RtcOperation,
>)
    ensures
        creates_channels(operations@, configurations@),
{
    let mut operations: Vec<RtcOperation> = Vec::new();
    let mut i: usize = 0;
    while i < configurations.len()
        invariant
            i <= configurations.len(),
            creates_channels(operations@, configurations@.take(i as int)),
        decreases configurations.len() - i,
    {
        let configuration = &configurations[i];
        let init = DataChannelInit::from(configuration).stream(channel_id(i));
        operations.push(RtcOperation::CreateChannel(configuration.label.clone(), init));
        i += 1;
    }
    assert(configurations@.take(configurations@.len() as int) =~= configurations@);
    operations
}

/// Moves all waiting candidates to the end of a list of operations.
fn drain_candidates(
    candidates: &mut Vec<RtcIceCandidate>,
    operations: &mut Vec<RtcOperation>,
)
    ensures
        final(candidates)@ == Seq::<RtcIceCandidate>::empty(),
        final(operations)@ == old(operations)@ + additions(old(candidates)@),
{
    let ghost all = candidates@;
    let ghost before = operations@;
    let mut taken: Vec<RtcIceCandidate> = Vec::new();
    taken.append(candidates);
    let mut rest: VecDeque<RtcIceCandidate> = queue(taken);
    assert(rest@ =~= all);
    assert(operations@ + additions(rest@) =~= before + additions(all));
    while rest.len() > 0
        invariant
            operations@ + additions(rest@) == before + additions(all),
        decreases rest.len(),
    {
        let ghost left = rest@;
        let ghost done = operations@;
        match rest.pop_front() {
            Some(candidate) => {
                operations.push(RtcOperation::AddRemoteCandidate(candidate));
                assert(operations@ + additions(rest@) =~= done + additions(left));
            },
            None => {},
        }
    }
    assert(operations@ =~= before + additions(all));
}

/// Interprets a first description of the remote session, of which `parsed` is the content.
pub fn receive_session_description(
    mode: RtcCandidateMode,
    candidates: &mut Vec<RtcIceCandidate>,
    parsed: Result<SdpSession, String>,
    sdp_type: RtcSdpType,
) -> (outcome: Result<Vec<RtcOperation>, RtcPeerConnectionError>)
    ensures
        (final(candidates)@, outcome_view(outcome)) == description_plan(
            mode,
            old(candidates)@,
            parsed,
            sdp_type,
        ),
{
    match parsed {
        Ok(sdp) => {
            let mut operations: Vec<RtcOperation> = Vec::new();
            if mode != RtcCandidateMode::Host || sdp_type != RtcSdpType::Offer {
                operations.push(
                    RtcOperation::SetRemoteDescription(SessionDescription { sdp, sdp_type }),
                );
                drain_candidates(candidates, &mut operations);
            }
            Ok(operations)
        },
        Err(reason) => Err(RtcPeerConnectionError::Negotiation(reason)),
    }
}

/// Interprets a message from the remote peer. Returns the operations that it calls for, and keeps
/// or releases the candidates that wait for a remote description.
pub fn receive_negotiation_message(
    mode: RtcCandidateMode,
    candidates: &mut Vec<RtcIceCandidate>,
    known: bool,
    message: RtcNegotiationMessage,
) -> (outcome: Result<Vec<RtcOperation>, RtcPeerConnectionError>)
    ensures
        exists|parsed: Result<SdpSession, String>|
            #![trigger is_message_parse(parsed, known, message)]
            is_message_parse(parsed, known, message) && (final(candidates)@, outcome_view(outcome))
                == plan(mode, old(candidates)@, known, message, parsed),
{
    match message {
        RtcNegotiationMessage::RemoteCandidate(candidate) => {
            assert(is_message_parse(arbitrary(), known, message));
            let mut operations: Vec<RtcOperation> = Vec::new();
            if known {
                operations.push(RtcOperation::AddRemoteCandidate(candidate));
                assert(operations@ =~= seq![RtcOperation::AddRemoteCandidate(candidate)]);
            } else {
                candidates.push(candidate);
            }
            Ok(operations)
        },
        RtcNegotiationMessage::RemoteSessionDescription(description) => if known {
            assert(is_message_parse(arbitrary(), known, message));
            Ok(Vec::new())
        } else {
            let parsed = parse_session(description.sdp.as_str());
            assert(is_message_parse(parsed, known, message));
            receive_session_description(
                mode,
                candidates,
                parsed,
                RtcSdpType::from_text(description.sdp_type.as_str()),
            )
        },
    }
}

/// Notices that the local peer has found a candidate, which the remote peer is told.
pub fn on_candidate(candidate: String, mid: String) -> (notification: RtcNegotiationNotification)
    ensures
        notification == RtcNegotiationNotification::SendMessage(
            RtcNegotiationMessage::RemoteCandidate(RtcIceCandidate { candidate, sdp_mid: mid }),
        ),
{
    RtcNegotiationNotification::SendMessage(
        RtcNegotiationMessage::RemoteCandidate(RtcIceCandidate { candidate, sdp_mid: mid }),
    )
}

/// Notices that the local session has a description, which the remote peer is told.
pub fn on_description(sdp: &SdpSession, sdp_type: RtcSdpType) -> (notification:
    RtcNegotiationNotification)
    ensures
        notification matches RtcNegotiationNotification::SendMessage(
            RtcNegotiationMessage::RemoteSessionDescription(description),
        ) && description.sdp@ == crate::sdp::sdp_session_text(*sdp) && description.sdp_type@
            == sdp_type.text(),
{
    describe(session_to_string(sdp), sdp_type)
}

/// Tells the remote peer the description of the local session.
pub fn describe(sdp: String, sdp_type: RtcSdpType) -> (notification: RtcNegotiationNotification)
    ensures
        notification matches RtcNegotiationNotification::SendMessage(
            RtcNegotiationMessage::RemoteSessionDescription(description),
        ) && description.sdp == sdp && description.sdp_type@ == sdp_type.text(),
{
    RtcNegotiationNotification::SendMessage(
        RtcNegotiationMessage::RemoteSessionDescription(
            RtcSessionDescription { sdp, sdp_type: sdp_type.as_str().to_string() },
        ),
    )
}

/// The state of a native connection.
#[derive(Copy, Clone, Debug, PartialEq, Eq, Structural)]
pub enum ConnectionState {
    /// The connection has just been created.
    New,
    /// The connection is being established.
    Connecting,
    /// The connection is established.
    Connected,
    /// The connection is interrupted.
    Disconnected,
    /// The connection could not be established.
    Failed,
    /// The connection has ended.
    Closed,
}

/// Notices a change of the state of the connection. A failure ends the negotiation.
pub fn on_connection_state_change(state: ConnectionState) -> (notification: Option<
    RtcNegotiationNotification,
>)
    ensures
        state != ConnectionState::Failed ==> notification is None,
        state == ConnectionState::Failed ==> (notification matches Some(
            RtcNegotiationNotification::Failed(RtcPeerConnectionError::IceNegotiationFailure(reason)),
        ) && reason@ == "ICE protocol could not find a valid candidate pair."@),
{
    if state == ConnectionState::Failed {
        Some(
            RtcNegotiationNotification::Failed(
                RtcPeerConnectionError::IceNegotiationFailure(
                    "ICE protocol could not find a valid candidate pair.".to_string(),
                ),
            ),
        )
    } else {
        None
    }
}

/// Notices that the remote peer has announced a channel. Since all channels are agreed upon
/// beforehand, that ends the negotiation.
pub fn data_channel_handler() -> (notification: RtcNegotiationNotification)
    ensures
        notification matches RtcNegotiationNotification::Failed(
            RtcPeerConnectionError::DataChannelMismatch(reason),
        ) && reason@ == "The remote peer attempted to open an unsolicited data channel."@,
{
    RtcNegotiationNotification::Failed(
        RtcPeerConnectionError::DataChannelMismatch(
            "The remote peer attempted to open an unsolicited data channel.".to_string(),
        ),
    )
}

impl RemoteOperation for RtcOperation {
    open spec fn candidate(self) -> Option<RtcIceCandidate> {
        match self {
            RtcOperation::AddRemoteCandidate(candidate) => Some(candidate),
            _ => None,
        }
    }

    open spec fn describes(self) -> bool {
        self is SetRemoteDescription
    }
}

/// The operations that set a native connection up have nothing to do with the remote session.
pub proof fn lemma_set_up_is_local(
    operations: Seq<RtcOperation>,
    configuration: IceConfiguration,
    channels: Seq<RtcDataChannelConfiguration>,
)
    requires
        sets_up(operations, configuration, channels),
    ensures
        crate::history::is_local(operations),
{
    assert forall|i: int| 0 <= i < operations.len() implies (
    #[trigger] operations[i]).candidate() is None && !operations[i].describes() by {
        if i > 0 {
            assert(operations.drop_first()[i - 1] == operations[i]);
            assert(creates_channel(operations.drop_first()[i - 1], channels[i - 1], i - 1));
        }
    }
}

/// Operations that apply candidates apply those, and set no description.
proof fn lemma_additions(candidates: Seq<RtcIceCandidate>)
    ensures
        crate::history::applied_by(additions(candidates)) == candidates,
        forall|i: int|
            0 <= i < additions(candidates).len() ==> !(
            #[trigger] additions(candidates)[i]).describes(),
    decreases candidates.len(),
{
    let operations = additions(candidates);
    if candidates.len() > 0 {
        lemma_additions(candidates.drop_first());
        assert(operations.drop_first() =~= additions(candidates.drop_first()));
        assert(operations.first() == RtcOperation::AddRemoteCandidate(candidates[0]));
        assert(crate::history::applied_by(operations) =~= candidates);
    }
}

/// However a native connector answers a message from the remote peer, it does so in an orderly way,
/// as `lemma_negotiation_in_order` asks for.
pub proof fn lemma_inspection_is_possible(
    history: NegotiationHistory<RtcOperation>,
    mode: RtcCandidateMode,
    parsed: Result<SdpSession, String>,
)
    requires
        history.negotiation.phase == RtcPhase::Inspecting,
    ensures
        ({
            let planned = plan(
                mode,
                history.negotiation.candidate_buffer,
                history.described,
                history.negotiation.message->0,
                parsed,
            );
            history.possible(RtcEvent::Inspected(history.described, planned.0, planned.1))
        }),
{
    let candidates = history.negotiation.candidate_buffer;
    let known = history.described;
    let message = history.negotiation.message->0;
    let (waiting, outcome) = plan(mode, candidates, known, message, parsed);
    match outcome {
        Ok(operations) => if operations.len() > 0 && message is RemoteSessionDescription {
            lemma_additions(candidates);
            assert(operations.skip(1) =~= additions(candidates));
            assert forall|i: int| 0 < i < operations.len() implies !(
            #[trigger] operations[i]).describes() by {
                assert(operations[i] == additions(candidates)[i - 1]);
            }
            assert(crate::history::is_local(operations.take(0)));
            assert(crate::history::describes_at(operations, 0, candidates));
            assert(crate::history::orderly(candidates, known, message, waiting, operations));
        },
        Err(_) => {},
    }
}

/// A description is interpreted in the role in which the remote peer told it.
pub proof fn lemma_role_arrives(
    mode: RtcCandidateMode,
    candidates: Seq<RtcIceCandidate>,
    description: RtcSessionDescription,
    parsed: Result<SdpSession, String>,
    sdp_type: RtcSdpType,
)
    requires
        description.sdp_type@ == sdp_type.text(),
    ensures
        plan(
            mode,
            candidates,
            false,
            RtcNegotiationMessage::RemoteSessionDescription(description),
            parsed,
        ) == description_plan(mode, candidates, parsed, sdp_type),
{
    crate::message::lemma_sdp_type_round_trip(sdp_type);
}

/// Where a host and a client make an offer each, the client follows the offer of the host and the
/// host ignores that of the client.
pub proof fn lemma_client_follows_host(
    host_candidates: Seq<RtcIceCandidate>,
    client_candidates: Seq<RtcIceCandidate>,
    host_offer: SdpSession,
    client_offer: SdpSession,
)
    ensures
        description_plan(
            RtcCandidateMode::Host,
            host_candidates,
            Ok(client_offer),
            RtcSdpType::Offer,
        ) == (
            host_candidates,
            Ok::<Seq<RtcOperation>, RtcPeerConnectionError>(Seq::<RtcOperation>::empty()),
        ),
        description_plan(
            RtcCandidateMode::Client,
            client_candidates,
            Ok(host_offer),
            RtcSdpType::Offer,
        ) == (
            Seq::<RtcIceCandidate>::empty(),
            Ok::<Seq<RtcOperation>, RtcPeerConnectionError>(
                seq![
                    RtcOperation::SetRemoteDescription(
                        SessionDescription { sdp: host_offer, sdp_type: RtcSdpType::Offer },
                    ),
                ] + additions(client_candidates),
            ),
        ),
{
}

/// Both parts follow an answer.
pub proof fn lemma_answer_is_followed(
    mode: RtcCandidateMode,
    candidates: Seq<RtcIceCandidate>,
    answer: SdpSession,
)
    ensures
        description_plan(mode, candidates, Ok(answer), RtcSdpType::Answer) == (
            Seq::<RtcIceCandidate>::empty(),
            Ok::<Seq<RtcOperation>, RtcPeerConnectionError>(
                seq![
                    RtcOperation::SetRemoteDescription(
                        SessionDescription { sdp: answer, sdp_type: RtcSdpType::Answer },
                    ),
                ] + additions(candidates),
            ),
        ),
{
}

/// The URL of a server that is no relay, and that of a relay without a user, are taken as they are.
/// Every URL of a relay stays one, and ends with the same host.
pub proof fn lemma_native_url(url: Seq<char>, server: RtcIceServer)
    ensures
        !"turn:"@.is_prefix_of(url) ==> native_url(url, server) == url,
        server.username is None ==> native_url(url, server) == url,
        "turn:"@.is_prefix_of(url) ==> "turn:"@.is_prefix_of(native_url(url, server)) && url.skip(
            "turn:"@.len() as int,
        ).is_suffix_of(native_url(url, server)),
{
    let relay = "turn:"@;
    if relay.is_prefix_of(url) {
        let host = url.skip(relay.len() as int);
        assert(url =~= relay + host);
        let native = native_url(url, server);
        assert(native.len() >= relay.len() + host.len());
        assert(native.take(relay.len() as int) =~= relay);
        assert(native.skip(native.len() - host.len()) =~= host);
    }
}

/// A native channel may lose messages exactly where that was asked for; then it gives each up after
/// the number of retransmissions or of milliseconds that was asked for. Without any retransmissions
/// it is unreliable.
pub proof fn lemma_reliability(
    init: DataChannelInit,
    configuration: RtcDataChannelConfiguration,
    stream: int,
)
    requires
        init.creates(configuration, stream),
    ensures
        init.reliability.unordered <==> !configuration.ordered,
        init.reliability.unreliable <==> configuration.reliability
            != RtcReliabilityMode::Reliable(),
        configuration.reliability matches RtcReliabilityMode::MaxRetransmits(count)
            ==> init.reliability.unreliable && init.reliability.max_retransmits == count,
        configuration.reliability matches RtcReliabilityMode::MaxPacketLifetime(lifetime)
            ==> init.reliability.unreliable && init.reliability.max_packet_life_time
            == lifetime.milliseconds(),
{
}

} // verus!
