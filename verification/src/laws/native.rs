//! Native connections: how they are configured, and how the remote peer is answered.

use vstd::prelude::*;
use webrtc_sdp::SdpSession;

use crate::configuration::{
    IceConfiguration, RtcCandidateMode, RtcConfiguration, RtcDataChannelConfiguration,
    RtcIceServer, RtcReliabilityMode,
};
use crate::error::RtcPeerConnectionError;
use crate::history::{NegotiationHistory, RemoteOperation};
use crate::message::{
    RtcIceCandidate, RtcNegotiationMessage, RtcNegotiationNotification, RtcSdpType,
};
use crate::native::{
    ConnectionState, DataChannelInit, RtcConfig, RtcOperation, RtcPeerConnector,
    SessionDescription,
};
use crate::negotiation::{RtcAction, RtcPhase};

verus! {

/// A native connection considers the transports that were asked for: all of them, or relays alone.
pub proof fn lemma_policy_is_kept(configuration: IceConfiguration, config: RtcConfig)
    requires
        call_ensures(RtcConfig::from, (&configuration,), config),
    ensures
        configuration.ice_transport_policy is All <==> config.ice_transport_policy is All,
        configuration.ice_transport_policy is Relay <==> config.ice_transport_policy is Relay,
{
}

/// How many URLs the first servers of a list have together.
pub open spec fn urls_before(servers: Seq<RtcIceServer>, i: int) -> nat
    decreases i,
{
    if i <= 0 || servers.len() == 0 {
        0
    } else {
        servers.first().urls@.len() + urls_before(servers.drop_first(), i - 1)
    }
}

/// Whether a text is the URL of a server as a native connection takes it: unchanged, except that the
/// URL of a relay names the user in front of the host, and the credential after the name.
pub open spec fn is_native_url(native: Seq<char>, url: Seq<char>, server: RtcIceServer) -> bool {
    let host = url.skip("turn:"@.len() as int);
    &&& !"turn:"@.is_prefix_of(url) || server.username is None ==> native == url
    &&& "turn:"@.is_prefix_of(url) ==> (server.username matches Some(name)
        ==> match server.credential {
        Some(secret) => native == "turn:"@ + name@ + ":"@ + secret@ + "@"@ + host,
        None => native == "turn:"@ + name@ + "@"@ + host,
    })
}

/// Whether a URL of a server stands in its place: after all URLs of the servers before it, and after
/// those of the same server that come before it.
pub open spec fn url_is_in_place(
    urls: Seq<String>,
    servers: Seq<RtcIceServer>,
    i: int,
    j: int,
) -> bool {
    let n = urls_before(servers, i) + j;
    &&& 0 <= n < urls.len()
    &&& is_native_url(urls[n]@, servers[i].urls@[j]@, servers[i])
}

/// A native connection gets one URL for each URL of each server, in the order of the servers and of
/// their URLs, and no others.
pub proof fn lemma_urls_are_kept(configuration: IceConfiguration, config: RtcConfig)
    requires
        call_ensures(RtcConfig::from, (&configuration,), config),
    ensures
        ({
            let servers = configuration.ice_servers@;
            &&& config.ice_servers@.len() == urls_before(servers, servers.len() as int)
            &&& forall|i: int, j: int|
                0 <= i < servers.len() && 0 <= j < servers[i].urls@.len()
                    ==> #[trigger] url_is_in_place(config.ice_servers@, servers, i, j)
        }),
{
    let servers = configuration.ice_servers@;
    let texts = crate::native::texts(config.ice_servers@);
    lemma_url_count(servers);
    assert(texts.len() == config.ice_servers@.len());
    assert forall|i: int, j: int|
        0 <= i < servers.len() && 0 <= j < servers[i].urls@.len() implies #[trigger]
        url_is_in_place(config.ice_servers@, servers, i, j) by {
        let n = urls_before(servers, i) + j;
        lemma_url_place(servers, i, j);
        assert(texts[n] == config.ice_servers@[n]@);
        crate::native::lemma_native_url(servers[i].urls@[j]@, servers[i]);
    }
}

/// The URLs of all servers as native connections take them.
spec fn lists(servers: Seq<RtcIceServer>) -> Seq<Seq<Seq<char>>> {
    servers.map_values(|server: RtcIceServer| crate::native::native_urls(server))
}

proof fn lemma_url_count(servers: Seq<RtcIceServer>)
    ensures
        lists(servers).flatten().len() == urls_before(servers, servers.len() as int),
    decreases servers.len(),
{
    if servers.len() > 0 {
        assert(lists(servers).drop_first() =~= lists(servers.drop_first()));
        assert(lists(servers).first() == crate::native::native_urls(servers.first()));
        lemma_url_count(servers.drop_first());
    }
}

proof fn lemma_url_place(servers: Seq<RtcIceServer>, i: int, j: int)
    requires
        0 <= i < servers.len(),
        0 <= j < servers[i].urls@.len(),
    ensures
        urls_before(servers, i) + j < lists(servers).flatten().len(),
        lists(servers).flatten()[urls_before(servers, i) + j] == crate::native::native_url(
            servers[i].urls@[j]@,
            servers[i],
        ),
    decreases i,
{
    let rest = servers.drop_first();
    assert(lists(servers).drop_first() =~= lists(rest));
    assert(lists(servers).first() == crate::native::native_urls(servers.first()));
    if i > 0 {
        assert(rest[i - 1] == servers[i]);
        lemma_url_place(rest, i - 1, j);
    }
}

/// The URL of a relay is made of the name and the credential of its user and of its host.
pub proof fn lemma_relay_url(
    url: &str,
    username: Option<&str>,
    credential: Option<&str>,
    formatted: String,
)
    requires
        call_ensures(crate::native::format_ice_url, (url, username, credential), formatted),
    ensures
        username is None ==> formatted@ == "turn:"@ + url@,
        username matches Some(name) ==> match credential {
            Some(secret) => formatted@ == "turn:"@ + name@ + ":"@ + secret@ + "@"@ + url@,
            None => formatted@ == "turn:"@ + name@ + "@"@ + url@,
        },
{
}

/// Whether a native channel is created as it was configured. It is ordered exactly where that was
/// asked for. It may lose messages exactly where a limit was asked for, and has that limit and no
/// other. It has the subprotocol that was asked for, and both peers know its number beforehand.
pub open spec fn is_as_configured(
    init: DataChannelInit,
    configuration: RtcDataChannelConfiguration,
) -> bool {
    &&& init.reliability.unordered <==> !configuration.ordered
    &&& init.reliability.unreliable <==> !(configuration.reliability is Reliable)
    &&& match configuration.reliability {
        RtcReliabilityMode::Reliable() => init.reliability.max_retransmits == 0
            && init.reliability.max_packet_life_time == 0,
        RtcReliabilityMode::MaxRetransmits(count) => init.reliability.max_retransmits == count
            && init.reliability.max_packet_life_time == 0,
        RtcReliabilityMode::MaxPacketLifetime(lifetime) => init.reliability.max_retransmits == 0
            && init.reliability.max_packet_life_time == lifetime.milliseconds(),
    }
    &&& configuration.protocol matches Some(protocol) ==> init.protocol@ == protocol@
    &&& configuration.protocol is None ==> init.protocol@.len() == 0
    &&& init.negotiated
    &&& init.manual_stream
}

/// A native channel is created as it was configured, under the number that it is given.
pub proof fn lemma_channel_is_as_configured(
    configuration: RtcDataChannelConfiguration,
    init: DataChannelInit,
    stream: u16,
    numbered: DataChannelInit,
)
    requires
        call_ensures(DataChannelInit::from, (&configuration,), init),
        call_ensures(DataChannelInit::stream, (init, stream), numbered),
    ensures
        is_as_configured(init, configuration),
        init.stream == 0,
        is_as_configured(numbered, configuration),
        numbered.stream == stream,
{
}

/// There is one native channel for each configuration, in order, created as configured under its
/// label and its place for a number.
pub proof fn lemma_channels_are_as_configured(
    configurations: Vec<RtcDataChannelConfiguration>,
    operations: Vec<RtcOperation>,
    i: int,
)
    requires
        call_ensures(crate::native::create_channels, (&configurations,), operations),
    ensures
        operations@.len() == configurations@.len(),
        0 <= i < configurations@.len() ==> (operations@[i] matches RtcOperation::CreateChannel(label, init) && label@
            == configurations@[i].label@ && is_as_configured(init, configurations@[i])
            && init.stream == i % 0x1_0000),
{
    if 0 <= i < configurations@.len() {
        assert(crate::native::creates_channel(operations@[i], configurations@[i], i));
    }
}

/// A native connector begins by creating a connection with the transports and the URLs that were
/// asked for; then, while everything succeeds, it creates each channel as configured, in order; and
/// then it counts the open ones until there are as many as configurations.
pub proof fn lemma_connect_sets_up(
    configuration: RtcConfiguration,
    configurations: Vec<RtcDataChannelConfiguration>,
    begun: (RtcPeerConnector, RtcAction<RtcOperation>),
    history: NegotiationHistory<RtcOperation>,
    config: RtcConfig,
    i: int,
)
    requires
        call_ensures(RtcPeerConnector::connect, (&configuration, &configurations), begun),
        call_ensures(RtcConfig::from, (&configuration.ice_configuration,), config),
        history.negotiation == begun.0.negotiation@,
    ensures
        begun.0.mode is Host <==> configuration.mode is Host,
        begun.0.negotiation.channel_count == configurations@.len(),
        begun.0.negotiation.phase == RtcPhase::Working,
        begun.0.negotiation.candidate_buffer@.len() == 0,
        begun.1 matches RtcAction::Perform(RtcOperation::CreateConnection(created)) && {
            &&& created.ice_transport_policy == configuration.ice_configuration.ice_transport_policy
            &&& crate::native::texts(created.ice_servers@) == crate::native::texts(
                config.ice_servers@,
            )
        },
        0 <= i < configurations@.len() ==> (history.after_all(
            crate::laws::negotiation::successes((i + 1) as nat),
        ).action matches RtcAction::Perform(RtcOperation::CreateChannel(label, init)) && label@
            == configurations@[i].label@ && is_as_configured(init, configurations@[i])
            && init.stream == i % 0x1_0000),
        history.after_all(
            crate::laws::negotiation::successes((configurations@.len() + 1) as nat),
        ).action is CountOpenChannels,
{
    let operations = choose|operations: Seq<RtcOperation>|
        #![trigger crate::native::sets_up(
            operations,
            configuration.ice_configuration,
            configurations@,
        )]
        crate::native::sets_up(operations, configuration.ice_configuration, configurations@) && (
            begun.0.negotiation@,
            begun.1,
        ) == crate::negotiation::NegotiationView::initial(
            configurations@.len(),
            operations,
        ).advance();
    let channels = operations.drop_first();
    if 0 <= i < configurations@.len() {
        assert(crate::native::creates_channel(channels[i], configurations@[i], i));
        crate::laws::negotiation::lemma_operations_follow_each_other(history, i as nat);
    }
    crate::laws::negotiation::lemma_set_up_ends_with_a_count(history);
}

/// The role in which a native peer takes a word.
pub open spec fn is_role(sdp_type: RtcSdpType, word: Seq<char>) -> bool {
    &&& sdp_type is Answer <==> word == "answer"@
    &&& sdp_type is Pranswer <==> word == "pranswer"@
    &&& sdp_type is Rollback <==> word == "rollback"@
}

proof fn lemma_is_role(word: Seq<char>)
    ensures
        is_role(RtcSdpType::of_text(word), word),
{
    reveal_strlit("answer");
    reveal_strlit("pranswer");
    reveal_strlit("rollback");
    assert("answer"@.len() == 6);
    assert("pranswer"@.len() == 8 && "rollback"@.len() == 8);
    assert("pranswer"@[0] == 'p' && "rollback"@[0] == 'r');
}

/// Whether these operations set a remote description and then apply candidates, in order.
pub open spec fn follows(
    operations: Seq<RtcOperation>,
    sdp: SdpSession,
    sdp_type: RtcSdpType,
    candidates: Seq<RtcIceCandidate>,
) -> bool {
    &&& operations.len() == candidates.len() + 1
    &&& operations[0] == RtcOperation::SetRemoteDescription(SessionDescription { sdp, sdp_type })
    &&& forall|i: int|
        0 <= i < candidates.len() ==> #[trigger] operations[i + 1]
            == RtcOperation::AddRemoteCandidate(candidates[i])
}

/// A first description of which the content is known is followed, whatever its role and whatever the
/// part of the peer, except that a host ignores an offer. All waiting candidates are applied after
/// it. One that could not be parsed is a failure of negotiation, for the parser's reason.
pub proof fn lemma_description_is_followed(
    mode: RtcCandidateMode,
    candidates: &mut Vec<RtcIceCandidate>,
    parsed: Result<SdpSession, String>,
    sdp_type: RtcSdpType,
    outcome: Result<Vec<RtcOperation>, RtcPeerConnectionError>,
)
    requires
        call_ensures(
            crate::native::receive_session_description,
            (mode, candidates, parsed, sdp_type),
            outcome,
        ),
    ensures
        match parsed {
            Err(reason) => {
                &&& outcome matches Err(RtcPeerConnectionError::Negotiation(told))
                &&& told == reason
                &&& final(candidates)@ == old(candidates)@
            },
            Ok(sdp) => {
                &&& outcome matches Ok(operations)
                &&& mode is Host && sdp_type is Offer ==> operations@.len() == 0
                    && final(candidates)@ == old(candidates)@
                &&& !(mode is Host && sdp_type is Offer) ==> follows(
                    operations@,
                    sdp,
                    sdp_type,
                    old(candidates)@,
                ) && final(candidates)@.len() == 0
            },
        },
{
}

/// How a native peer answers a message. A candidate is applied where there is a remote description,
/// and waits behind the others where there is none. A first description is parsed, tolerating
/// warnings, and followed in the role that it names, except that a host ignores an offer; a word
/// that names no role is an offer. A later description is ignored.
pub proof fn lemma_message_is_answered(
    mode: RtcCandidateMode,
    candidates: &mut Vec<RtcIceCandidate>,
    known: bool,
    message: RtcNegotiationMessage,
    outcome: Result<Vec<RtcOperation>, RtcPeerConnectionError>,
    sdp_type: RtcSdpType,
)
    requires
        call_ensures(
            crate::native::receive_negotiation_message,
            (mode, candidates, known, message),
            outcome,
        ),
        message matches RtcNegotiationMessage::RemoteSessionDescription(description) ==> is_role(
            sdp_type,
            description.sdp_type@,
        ),
    ensures
        match message {
            RtcNegotiationMessage::RemoteCandidate(candidate) => {
                &&& outcome matches Ok(operations)
                &&& known ==> operations@ == seq![RtcOperation::AddRemoteCandidate(candidate)]
                    && final(candidates)@ == old(candidates)@
                &&& !known ==> operations@.len() == 0 && final(candidates)@ == old(
                    candidates)@.push(candidate)
            },
            RtcNegotiationMessage::RemoteSessionDescription(description) => {
                let ignored = known || mode is Host && sdp_type is Offer
                    && crate::sdp::sdp_parse(description.sdp@, false) is Ok;
                &&& ignored ==> {
                    &&& outcome matches Ok(operations)
                    &&& operations@.len() == 0
                    &&& final(candidates)@ == old(candidates)@
                }
                &&& !ignored ==> match crate::sdp::sdp_parse(description.sdp@, false) {
                    Ok(sdp) => {
                        &&& outcome matches Ok(operations)
                        &&& follows(operations@, sdp, sdp_type, old(candidates)@)
                        &&& final(candidates)@.len() == 0
                    },
                    Err(error) => {
                        &&& outcome matches Err(RtcPeerConnectionError::Negotiation(reason))
                        &&& reason@ == crate::sdp::sdp_error_text(error)
                        &&& final(candidates)@ == old(candidates)@
                    },
                }
            },
        },
{
    if let RtcNegotiationMessage::RemoteSessionDescription(description) = message {
        lemma_is_role(description.sdp_type@);
        assert(RtcSdpType::of_text(description.sdp_type@) == sdp_type);
    }
}

/// How a native connector goes on after a message: what the message calls for comes first, the
/// messages after it are left, and the part of the peer stays the same.
pub proof fn lemma_connector_answers(
    connector: &mut RtcPeerConnector,
    known: bool,
    action: RtcAction<RtcOperation>,
    candidates: &mut Vec<RtcIceCandidate>,
    outcome: Result<Vec<RtcOperation>, RtcPeerConnectionError>,
)
    requires
        old(connector).negotiation@.well_formed(),
        old(connector).negotiation.phase == RtcPhase::Inspecting,
        call_ensures(RtcPeerConnector::remote_description, (connector, known), action),
        old(candidates)@ == old(connector).negotiation.candidate_buffer@,
        call_ensures(
            crate::native::receive_negotiation_message,
            (
                old(connector).mode,
                candidates,
                known,
                old(connector).negotiation.message->0,
            ),
            outcome,
        ),
    ensures
        final(connector).mode == old(connector).mode,
        final(connector).negotiation.candidate_buffer@ == final(candidates)@,
        outcome matches Ok(operations) ==> crate::laws::negotiation::goes_on(
            old(connector).negotiation@,
            operations@,
            old(connector).negotiation.messages@,
            final(connector).negotiation@,
            action,
        ),
        outcome matches Err(RtcPeerConnectionError::Negotiation(reason)) ==> {
            &&& action matches RtcAction::Finish(Err(RtcPeerConnectionError::Negotiation(told)))
            &&& told@ == reason@
        },
        outcome is Err ==> final(connector).negotiation.phase == RtcPhase::Finished,
{
    let before = old(connector).negotiation@;
    let after = final(connector).negotiation@;
    if let Ok(operations) = outcome {
        assert(crate::laws::negotiation::asked(action) + after.operations =~= operations@);
        assert(crate::history::current(after.message) + after.messages =~= before.messages);
    }
}

/// A candidate that the local peer has found is told as it is.
pub proof fn lemma_candidate_is_told(
    candidate: String,
    mid: String,
    notification: RtcNegotiationNotification,
)
    requires
        call_ensures(crate::native::on_candidate, (candidate, mid), notification),
    ensures
        notification matches RtcNegotiationNotification::SendMessage(
            RtcNegotiationMessage::RemoteCandidate(told),
        ) && told.candidate@ == candidate@ && told.sdp_mid@ == mid@,
{
}

/// A description of the local session is told as the text of the session, in its role; and a peer
/// that reads the role finds the same.
pub proof fn lemma_description_is_told(
    sdp: SdpSession,
    sdp_type: RtcSdpType,
    notification: RtcNegotiationNotification,
    text: String,
    described: RtcNegotiationNotification,
)
    requires
        call_ensures(crate::native::on_description, (&sdp, sdp_type), notification),
        call_ensures(crate::native::describe, (text, sdp_type), described),
    ensures
        notification matches RtcNegotiationNotification::SendMessage(
            RtcNegotiationMessage::RemoteSessionDescription(told),
        ) && told.sdp@ == crate::sdp::sdp_session_text(sdp) && is_role(sdp_type, told.sdp_type@) && (
        sdp_type is Offer <==> told.sdp_type@ == "offer"@),
        described matches RtcNegotiationNotification::SendMessage(
            RtcNegotiationMessage::RemoteSessionDescription(told),
        ) && told.sdp@ == text@ && is_role(sdp_type, told.sdp_type@) && (sdp_type is Offer
            <==> told.sdp_type@ == "offer"@),
{
    crate::message::lemma_sdp_type_round_trip(sdp_type);
    lemma_is_role(sdp_type.text());
    if sdp_type.text() == "offer"@ {
        crate::message::lemma_sdp_type_text_is_unique(sdp_type, RtcSdpType::Offer);
    }
}

/// A connection that fails, and nothing else that happens to it, is a failure of ICE.
pub proof fn lemma_failed_connection_is_noticed(
    state: ConnectionState,
    notification: Option<RtcNegotiationNotification>,
)
    requires
        call_ensures(crate::native::on_connection_state_change, (state,), notification),
    ensures
        notification is Some <==> state is Failed,
        notification matches Some(notification) ==> {
            &&& notification matches RtcNegotiationNotification::Failed(
                RtcPeerConnectionError::IceNegotiationFailure(reason),
            )
            &&& reason@ == "ICE protocol could not find a valid candidate pair."@
        },
{
}

/// A channel that the remote peer announces is a mismatch.
pub proof fn lemma_announced_channel_is_a_mismatch(notification: RtcNegotiationNotification)
    requires
        call_ensures(crate::native::data_channel_handler, (), notification),
    ensures
        notification matches RtcNegotiationNotification::Failed(
            RtcPeerConnectionError::DataChannelMismatch(reason),
        ) && reason@ == "The remote peer attempted to open an unsolicited data channel."@,
{
}

/// A text is parsed as a session description, tolerating warnings, and the reason of a failure is
/// the one that the parser shows.
pub proof fn lemma_description_is_parsed(sdp: &str, outcome: Result<SdpSession, String>)
    requires
        call_ensures(crate::sdp::parse_session, (sdp,), outcome),
    ensures
        match (crate::sdp::sdp_parse(sdp@, false), outcome) {
            (Ok(session), Ok(parsed)) => parsed == session,
            (Err(error), Err(reason)) => reason@ == crate::sdp::sdp_error_text(error),
            _ => false,
        },
{
}

/// Which operations have to do with the remote session.
pub proof fn lemma_remote_operations(operation: RtcOperation)
    ensures
        operation.describes() <==> operation is SetRemoteDescription,
        operation.candidate() is Some <==> operation is AddRemoteCandidate,
        operation matches RtcOperation::AddRemoteCandidate(candidate) ==> operation.candidate()
            == Some(candidate),
{
}

} // verus!
