//! Data channels in web browsers.

use vstd::prelude::*;
use vstd::slice::slice_to_vec;
use vstd::string::*;
use std::collections::VecDeque;

use crate::configuration::{IceConfiguration, RtcDataChannelConfiguration, RtcReliabilityMode};
use crate::error::RtcPeerConnectionError;
use crate::history::{NegotiationHistory, RemoteOperation, RtcEvent};
use crate::message::{
    RtcIceCandidate, RtcNegotiationMessage, RtcNegotiationNotification, RtcSdpType,
    RtcSessionDescription,
};
use crate::negotiation::{channel_id, queue, RtcAction, RtcNegotiation, RtcPhase};
use crate::text::{text_equals, text_less};

verus! {

/// How a channel in a browser is created.
#[derive(Debug, PartialEq)]
pub struct RtcDataChannelInit {
    /// Whether messages arrive in the order in which they were sent.
    pub ordered: bool,
    /// Whether both peers create the channel, so that it is not announced to the other one.
    pub negotiated: bool,
    /// The subprotocol of the channel, where it has one.
    pub protocol: Option<String>,
    /// The number of milliseconds after which a message is given up, where there is a limit.
    pub max_packet_life_time: Option<u16>,
    /// The number of retransmissions after which a message is given up, where there is a limit.
    pub max_retransmits: Option<u16>,
    /// The number of the channel.
    pub id: u16,
}

impl RtcDataChannelInit {
    /// Whether this creates a channel as described, under a number that both peers know
    /// beforehand.
    pub open spec fn creates(self, configuration: RtcDataChannelConfiguration, id: int) -> bool {
        &&& self.ordered == configuration.ordered
        &&& self.negotiated
        &&& self.protocol == configuration.protocol
        &&& self.max_packet_life_time == match configuration.reliability {
            RtcReliabilityMode::MaxPacketLifetime(lifetime) => Some(lifetime.milliseconds()),
            _ => None,
        }
        &&& self.max_retransmits == match configuration.reliability {
            RtcReliabilityMode::MaxRetransmits(count) => Some(count),
            _ => None,
        }
        &&& self.id == id
    }

    /// Describes a channel in a browser, under the number zero.
    pub fn from(configuration: &RtcDataChannelConfiguration) -> (init: Self)
        ensures
            init.creates(*configuration, 0),
    {
        let mut init = RtcDataChannelInit {
            ordered: configuration.ordered,
            negotiated: true,
            protocol: None,
            max_packet_life_time: None,
            max_retransmits: None,
            id: 0,
        };
        if let Some(protocol) = &configuration.protocol {
            init.protocol = Some(protocol.clone());
        }
        match configuration.reliability {
            RtcReliabilityMode::MaxPacketLifetime(lifetime) => {
                init.max_packet_life_time = Some(lifetime.get());
            },
            RtcReliabilityMode::MaxRetransmits(count) => {
                init.max_retransmits = Some(count);
            },
            RtcReliabilityMode::Reliable() => {},
        }
        init
    }

    /// Gives the channel a number.
    pub fn id(self, id: u16) -> (init: Self)
        ensures
            init == (RtcDataChannelInit { id, ..self }),
    {
        let mut init: RtcDataChannelInit = self;
        init.id = id;
        init
    }
}

/// How a message leaves a browser.
#[derive(Copy, Clone, Debug, PartialEq, Eq, Structural)]
pub enum RtcDispatch {
    /// The thread that the channel belongs to sends the message at once.
    Immediate,
    /// The thread that the channel belongs to is asked to send the next message that waits.
    Deferred,
}

/// The messages that other threads have left for the thread that a channel belongs to.
#[derive(Debug)]
pub struct RtcOutbox {
    messages: VecDeque<Vec<u8>>,
}

impl View for RtcOutbox {
    type V = Seq<Seq<u8>>;

    /// The messages that wait, the oldest first.
    closed spec fn view(&self) -> Seq<Seq<u8>> {
        self.messages@.map_values(|message: Vec<u8>| message@)
    }
}

impl RtcOutbox {
    /// Makes an outbox in which nothing waits.
    pub fn new() -> (outbox: Self)
        ensures
            outbox@ == Seq::<Seq<u8>>::empty(),
    {
        let outbox = RtcOutbox { messages: VecDeque::new() };
        assert(outbox@ =~= Seq::empty());
        outbox
    }

    /// Decides how a message is sent, which depends on whether the sender is the thread that the
    /// channel belongs to. Where it is not, the message waits.
    pub fn dispatch(&mut self, message: &[u8], owns_channel: bool) -> (dispatch: RtcDispatch)
        ensures
            owns_channel ==> dispatch == RtcDispatch::Immediate && final(self)@ == old(self)@,
            !owns_channel ==> dispatch == RtcDispatch::Deferred && final(self)@ == old(self)@.push(
                message@,
            ),
    {
        if owns_channel {
            RtcDispatch::Immediate
        } else {
            let copy: Vec<u8> = slice_to_vec(message);
            self.messages.push_back(copy);
            assert(self@ =~= old(self)@.push(message@));
            RtcDispatch::Deferred
        }
    }

    /// Takes the message that has waited longest, if there is one.
    pub fn next(&mut self) -> (message: Option<Vec<u8>>)
        ensures
            match message {
                Some(message) => {
                    &&& old(self)@.len() > 0
                    &&& message@ == old(self)@.first()
                    &&& final(self)@ == old(self)@.drop_first()
                },
                None => old(self)@.len() == 0 && final(self)@ == old(self)@,
            },
    {
        let message = self.messages.pop_front();
        proof {
            if message is Some {
                assert(self@ =~= old(self)@.drop_first());
            }
        }
        message
    }
}

/// What a connection in a browser has to do.
#[derive(Debug)]
pub enum RtcOperation {
    /// Create the connection.
    CreateConnection(IceConfiguration),
    /// Create a channel with a label.
    CreateChannel(String, RtcDataChannelInit),
    /// Create the offer of the local session.
    CreateOffer,
    /// Take a description of the local session.
    SetLocalDescription(RtcSdpType, String),
    /// Take the description of the remote session.
    SetRemoteDescription(RtcSessionDescription),
    /// Take a candidate of the remote peer.
    AddRemoteCandidate(RtcIceCandidate),
    /// Create an answer to the description of the remote session.
    CreateAnswer,
    /// Send a message to the remote peer.
    SendMessage(RtcNegotiationMessage),
}

/// The operations that apply candidates, one by one.
pub open spec fn additions(candidates: Seq<RtcIceCandidate>) -> Seq<RtcOperation> {
    candidates.map_values(|candidate: RtcIceCandidate| RtcOperation::AddRemoteCandidate(candidate))
}

/// What a first offer calls for, and which candidates wait afterwards. Of two peers that made an
/// offer each, the one whose offer comes first in the order of texts follows the other: it sets the
/// remote offer, applies all waiting candidates in the order in which they arrived, and creates an
/// answer.
pub open spec fn offer_plan(
    local: RtcSessionDescription,
    candidates: Seq<RtcIceCandidate>,
    offer: RtcSessionDescription,
) -> (Seq<RtcIceCandidate>, Seq<RtcOperation>) {
    if crate::text::text_precedes(local.sdp@, offer.sdp@) {
        (
            Seq::empty(),
            seq![RtcOperation::SetRemoteDescription(offer)] + additions(candidates)
                + seq![RtcOperation::CreateAnswer],
        )
    } else {
        (candidates, Seq::empty())
    }
}

/// What a first answer calls for: the local offer is set, then the answer, then all waiting
/// candidates are applied in the order in which they arrived.
pub open spec fn answer_plan(
    local: RtcSessionDescription,
    candidates: Seq<RtcIceCandidate>,
    answer: RtcSessionDescription,
) -> Seq<RtcOperation> {
    seq![
        RtcOperation::SetLocalDescription(RtcSdpType::Offer, local.sdp),
        RtcOperation::SetRemoteDescription(answer),
    ] + additions(candidates)
}

/// What a message from the remote peer calls for, and which candidates wait afterwards.
pub open spec fn plan(
    local: RtcSessionDescription,
    candidates: Seq<RtcIceCandidate>,
    known: bool,
    message: RtcNegotiationMessage,
) -> (Seq<RtcIceCandidate>, Seq<RtcOperation>) {
    match message {
        RtcNegotiationMessage::RemoteCandidate(candidate) => if known {
            (candidates, seq![RtcOperation::AddRemoteCandidate(candidate)])
        } else {
            (candidates.push(candidate), Seq::empty())
        },
        RtcNegotiationMessage::RemoteSessionDescription(description) => if known {
            (candidates, Seq::empty())
        } else if description.sdp_type@ == "offer"@ {
            offer_plan(local, candidates, description)
        } else {
            (Seq::empty(), answer_plan(local, candidates, description))
        },
    }
}

/// Whether an operation creates a channel as described.
pub open spec fn creates_channel(
    operation: RtcOperation,
    configuration: RtcDataChannelConfiguration,
    index: int,
) -> bool {
    operation matches RtcOperation::CreateChannel(label, init) && label@ == configuration.label@
        && init.creates(configuration, index % 0x1_0000)
}

/// Whether these operations create the channels as described, in order.
pub open spec fn creates_channels(
    operations: Seq<RtcOperation>,
    channels: Seq<RtcDataChannelConfiguration>,
) -> bool {
    &&& operations.len() == channels.len()
    &&& forall|i: int|
        0 <= i < channels.len() ==> creates_channel(#[trigger] operations[i], channels[i], i)
}

/// Whether these are the operations that set a connection in a browser up: the connection comes
/// first, then each channel, in order, under its label and its number, then the offer.
pub open spec fn sets_up(
    operations: Seq<RtcOperation>,
    configuration: IceConfiguration,
    channels: Seq<RtcDataChannelConfiguration>,
) -> bool {
    exists|creations: Seq<RtcOperation>|
        #![trigger creates_channels(creations, channels)]
        creates_channels(creations, channels) && operations == seq![
            RtcOperation::CreateConnection(configuration),
        ] + creations + seq![RtcOperation::CreateOffer]
}

/// Whether a message tells the remote peer an answer.
pub open spec fn is_answer(message: RtcNegotiationMessage, sdp: String) -> bool {
    message matches RtcNegotiationMessage::RemoteSessionDescription(description) && description.sdp
        == sdp && description.sdp_type@ == "answer"@
}

/// Manages the establishment of a connection in a browser with a remote peer.
#[derive(Debug)]
pub struct RtcPeerConnector {
    /// The offer of the local session, as soon as there is one.
    pub local_description: Option<RtcSessionDescription>,
    /// The negotiation of the connection.
    pub negotiation: RtcNegotiation<RtcOperation>,
}

impl RtcPeerConnector {
    /// Begins to connect to a remote peer, and returns the first action.
    pub fn connect(
        configuration: IceConfiguration,
        channel_configurations: &Vec<RtcDataChannelConfiguration>,
    ) -> (begun: (Self, RtcAction<RtcOperation>))
        ensures
            begun.0.local_description is None,
            begun.0.negotiation@.well_formed(),
            exists|operations: Seq<RtcOperation>|
                #![trigger sets_up(operations, configuration, channel_configurations@)]
                {
                    &&& sets_up(operations, configuration, channel_configurations@)
                    &&& (begun.0.negotiation@, begun.1)
                        == crate::negotiation::NegotiationView::initial(
                        channel_configurations@.len(),
                        operations,
                    ).advance()
                },
    {
        let mut operations: Vec<RtcOperation> = Vec::new();
        operations.push(RtcOperation::CreateConnection(configuration));
        let mut channels: Vec<RtcOperation> = create_channels(channel_configurations);
        let ghost creations = channels@;
        operations.append(&mut channels);
        operations.push(RtcOperation::CreateOffer);
        proof {
            assert(operations@ =~= seq![RtcOperation::CreateConnection(configuration)] + creations
                + seq![RtcOperation::CreateOffer]);
            assert(sets_up(operations@, configuration, channel_configurations@));
        }
        let (negotiation, action) = RtcNegotiation::begin(channel_configurations.len(), operations);
        (RtcPeerConnector { local_description: None, negotiation }, action)
    }

    /// Takes note of the offer of the local session, which the remote peer is told.
    pub fn offered(&mut self, outcome: Result<RtcSessionDescription, RtcPeerConnectionError>) -> (
    action: RtcAction<RtcOperation>)
        requires
            old(self).negotiation@.well_formed(),
            old(self).negotiation.phase == RtcPhase::Working,
        ensures
            final(self).negotiation@.well_formed(),
            match outcome {
                Ok(offer) => {
                    &&& final(self).local_description == Some(offer)
                    &&& (final(self).negotiation@, action) == old(self).negotiation@.succeeded(
                        seq![
                            RtcOperation::SendMessage(
                                RtcNegotiationMessage::RemoteSessionDescription(offer),
                            ),
                        ],
                    )
                },
                Err(error) => {
                    &&& final(self).local_description == old(self).local_description
                    &&& (final(self).negotiation@, action) == old(self).negotiation@.fail(error)
                },
            },
    {
        match outcome {
            Ok(offer) => {
                let mut more: Vec<RtcOperation> = Vec::new();
                more.push(
                    RtcOperation::SendMessage(
                        RtcNegotiationMessage::RemoteSessionDescription(offer.clone()),
                    ),
                );
                assert(more@ =~= seq![
                    RtcOperation::SendMessage(
                        RtcNegotiationMessage::RemoteSessionDescription(offer),
                    ),
                ]);
                self.local_description = Some(offer);
                self.negotiation.succeeded(more)
            },
            Err(error) => self.negotiation.fail(error),
        }
    }

    /// Takes note of the answer of the local session, which is set and which the remote peer is
    /// told.
    pub fn answered(&mut self, outcome: Result<String, String>) -> (action: RtcAction<RtcOperation>)
        requires
            old(self).negotiation@.well_formed(),
            old(self).negotiation.phase == RtcPhase::Working,
        ensures
            final(self).local_description == old(self).local_description,
            final(self).negotiation@.well_formed(),
            match outcome {
                Ok(sdp) => exists|message: RtcNegotiationMessage|
                    #![trigger is_answer(message, sdp)]
                    is_answer(message, sdp) && (final(self).negotiation@, action) == old(
                        self,
                    ).negotiation@.succeeded(
                        seq![
                            RtcOperation::SetLocalDescription(RtcSdpType::Answer, sdp),
                            RtcOperation::SendMessage(message),
                        ],
                    ),
                Err(reason) => (final(self).negotiation@, action) == old(self).negotiation@.fail(
                    RtcPeerConnectionError::Negotiation(reason),
                ),
            },
    {
        match outcome {
            Ok(sdp) => {
                let message = RtcNegotiationMessage::RemoteSessionDescription(
                    RtcSessionDescription { sdp: sdp.clone(), sdp_type: "answer".to_string() },
                );
                assert(is_answer(message, sdp));
                let mut more: Vec<RtcOperation> = Vec::new();
                more.push(RtcOperation::SetLocalDescription(RtcSdpType::Answer, sdp));
                more.push(RtcOperation::SendMessage(message));
                assert(more@ =~= seq![
                    RtcOperation::SetLocalDescription(RtcSdpType::Answer, sdp),
                    RtcOperation::SendMessage(message),
                ]);
                self.negotiation.succeeded(more)
            },
            Err(reason) => self.negotiation.fail(RtcPeerConnectionError::Negotiation(reason)),
        }
    }

    /// Takes note of whether the connection has a remote description, and handles the next message
    /// from the remote peer accordingly.
    pub fn remote_description(&mut self, known: bool) -> (action: RtcAction<RtcOperation>)
        requires
            old(self).negotiation@.well_formed(),
            old(self).negotiation.phase == RtcPhase::Inspecting,
            old(self).local_description is Some,
        ensures
            final(self).local_description == old(self).local_description,
            final(self).negotiation@.well_formed(),
            (final(self).negotiation@, action) == {
                let planned = plan(
                    old(self).local_description->0,
                    old(self).negotiation@.candidate_buffer,
                    known,
                    old(self).negotiation.message->0,
                );
                old(self).negotiation@.inspected(planned.0, Ok(planned.1))
            },
    {
        let message = self.negotiation.message.take().unwrap();
        let operations: Vec<RtcOperation> = receive_negotiation_message(
            self.local_description.as_ref().unwrap(),
            &mut self.negotiation.candidate_buffer,
            known,
            message,
        );
        self.negotiation.inspected(Ok(operations))
    }
}

/// Lists the operations that create the channels.
pub fn create_channels(configurations: &Vec<RtcDataChannelConfiguration>) -> (operations: Vec<
    RtcOperation,
>)
    ensures
        creates_channels(operations@, configurations@),
{
    let mut operations: Vec<RtcOperation> = Vec::new();
    let mut i: usize = 0;
    while i < configurations.len()
        invariant
            i <= configurations.len(),
            creates_channels(operations@, configurations@.take(i as int)),
        decreases configurations.len() - i,
    {
        let configuration = &configurations[i];
        let init = RtcDataChannelInit::from(configuration).id(channel_id(i));
        operations.push(RtcOperation::CreateChannel(configuration.label.clone(), init));
        i += 1;
    }
    assert(configurations@.take(configurations@.len() as int) =~= configurations@);
    operations
}

/// Describes the offer that the browser made for the local session. The browser may tell a role
/// that is none of the known ones, or fail to make an offer.
pub fn create_offer(outcome: Result<(Option<RtcSdpType>, String), String>) -> (offer: Result<
    RtcSessionDescription,
    RtcPeerConnectionError,
>)
    ensures
        match outcome {
            Ok((Some(sdp_type), sdp)) => offer matches Ok(description) && description.sdp == sdp
                && description.sdp_type@ == sdp_type.text(),
            Ok((None, _)) => offer matches Err(RtcPeerConnectionError::Negotiation(reason))
                && reason@ == "Unexpected SDP type"@,
            Err(reason) => offer == Err::<RtcSessionDescription, _>(
                RtcPeerConnectionError::Negotiation(reason),
            ),
        },
{
    match outcome {
        Ok((Some(sdp_type), sdp)) => Ok(
            RtcSessionDescription { sdp, sdp_type: sdp_type.as_str().to_string() },
        ),
        Ok((None, _)) => Err(
            RtcPeerConnectionError::Negotiation("Unexpected SDP type".to_string()),
        ),
        Err(reason) => Err(RtcPeerConnectionError::Negotiation(reason)),
    }
}

/// Moves all waiting candidates to the end of a list of operations.
fn drain_candidates(candidates: &mut Vec<RtcIceCandidate>, operations: &mut Vec<RtcOperation>)
    ensures
        final(candidates)@ == Seq::<RtcIceCandidate>::empty(),
        final(operations)@ == old(operations)@ + additions(old(candidates)@),
{
    let ghost all = candidates@;
    let ghost before = operations@;
    let mut taken: Vec<RtcIceCandidate> = Vec::new();
    taken.append(candidates);
    let mut rest: VecDeque<RtcIceCandidate> = queue(taken);
    assert(rest@ =~= all);
    assert(operations@ + additions(rest@) =~= before + additions(all));
    while rest.len() > 0
        invariant
            operations@ + additions(rest@) == before + additions(all),
        decreases rest.len(),
    {
        let ghost left = rest@;
        let ghost done = operations@;
        match rest.pop_front() {
            Some(candidate) => {
                operations.push(RtcOperation::AddRemoteCandidate(candidate));
                assert(operations@ + additions(rest@) =~= done + additions(left));
            },
            None => {},
        }
    }
    assert(operations@ =~= before + additions(all));
}

/// Handles the receipt of a remote offer that the local peer follows.
fn handle_remote_offer(
    offer: RtcSessionDescription,
    candidates: &mut Vec<RtcIceCandidate>,
) -> (operations: Vec<RtcOperation>)
    ensures
        final(candidates)@ == Seq::<RtcIceCandidate>::empty(),
        operations@ == seq![RtcOperation::SetRemoteDescription(offer)] + additions(old(candidates)@)
            + seq![RtcOperation::CreateAnswer],
{
    let mut operations: Vec<RtcOperation> = Vec::new();
    operations.push(RtcOperation::SetRemoteDescription(offer));
    assert(operations@ =~= seq![RtcOperation::SetRemoteDescription(offer)]);
    drain_candidates(candidates, &mut operations);
    operations.push(RtcOperation::CreateAnswer);
    assert(operations@ =~= seq![RtcOperation::SetRemoteDescription(offer)] + additions(
        old(candidates)@,
    ) + seq![RtcOperation::CreateAnswer]);
    operations
}

/// Handles the receipt of a remote answer to the local offer.
fn handle_remote_answer(
    local_description: &RtcSessionDescription,
    answer: RtcSessionDescription,
    candidates: &mut Vec<RtcIceCandidate>,
) -> (operations: Vec<RtcOperation>)
    ensures
        final(candidates)@ == Seq::<RtcIceCandidate>::empty(),
        operations@ == answer_plan(*local_description, old(candidates)@, answer),
{
    let mut operations: Vec<RtcOperation> = Vec::new();
    operations.push(
        RtcOperation::SetLocalDescription(RtcSdpType::Offer, local_description.sdp.clone()),
    );
    operations.push(RtcOperation::SetRemoteDescription(answer));
    assert(operations@ =~= seq![
        RtcOperation::SetLocalDescription(RtcSdpType::Offer, local_description.sdp),
        RtcOperation::SetRemoteDescription(answer),
    ]);
    drain_candidates(candidates, &mut operations);
    operations
}

/// Interprets a message from the remote peer. Returns the operations that it calls for, and keeps
/// or releases the candidates that wait for a remote description.
pub fn receive_negotiation_message(
    local_description: &RtcSessionDescription,
    candidates: &mut Vec<RtcIceCandidate>,
    known: bool,
    message: RtcNegotiationMessage,
) -> (operations: Vec<RtcOperation>)
    ensures
        (final(candidates)@, operations@) == plan(
            *local_description,
            old(candidates)@,
            known,
            message,
        ),
{
    match message {
        RtcNegotiationMessage::RemoteCandidate(candidate) => {
            let mut operations: Vec<RtcOperation> = Vec::new();
            if known {
                operations.push(RtcOperation::AddRemoteCandidate(candidate));
                assert(operations@ =~= seq![RtcOperation::AddRemoteCandidate(candidate)]);
            } else {
                candidates.push(candidate);
            }
            operations
        },
        RtcNegotiationMessage::RemoteSessionDescription(description) => if known {
            Vec::new()
        } else if text_equals(description.sdp_type.as_str(), "offer") {
            if text_less(local_description.sdp.as_str(), description.sdp.as_str()) {
                handle_remote_offer(description, candidates)
            } else {
                Vec::new()
            }
        } else {
            handle_remote_answer(local_description, description, candidates)
        },
    }
}

/// Notices that the local peer has found a candidate, which the remote peer is told. The end of
/// the candidates is told as an empty one.
pub fn on_ice_candidate(candidate: Option<(String, Option<String>)>) -> (notification:
    RtcNegotiationNotification)
    ensures
        notification matches RtcNegotiationNotification::SendMessage(
            RtcNegotiationMessage::RemoteCandidate(told),
        ) && match candidate {
            Some((name, mid)) => told.candidate == name && told.sdp_mid@ == match mid {
                Some(mid) => mid@,
                None => Seq::empty(),
            },
            None => told.candidate@ == Seq::<char>::empty() && told.sdp_mid@
                == Seq::<char>::empty(),
        },
{
    let told = match candidate {
        Some((name, mid)) => RtcIceCandidate {
            candidate: name,
            sdp_mid: match mid {
                Some(mid) => mid,
                None => String::new(),
            },
        },
        None => RtcIceCandidate { candidate: String::new(), sdp_mid: String::new() },
    };
    RtcNegotiationNotification::SendMessage(RtcNegotiationMessage::RemoteCandidate(told))
}

/// Notices a change of the state of the connection. A failure ends the negotiation.
pub fn on_connection_state_change(state: &str) -> (notification: Option<RtcNegotiationNotification>)
    ensures
        state@ != "failed"@ ==> notification is None,
        state@ == "failed"@ ==> (notification matches Some(
            RtcNegotiationNotification::Failed(RtcPeerConnectionError::IceNegotiationFailure(reason)),
        ) && reason@ == "ICE protocol could not find a valid candidate pair."@),
{
    if text_equals(state, "failed") {
        Some(
            RtcNegotiationNotification::Failed(
                RtcPeerConnectionError::IceNegotiationFailure(
                    "ICE protocol could not find a valid candidate pair.".to_string(),
                ),
            ),
        )
    } else {
        None
    }
}

impl RemoteOperation for RtcOperation {
    open spec fn candidate(self) -> Option<RtcIceCandidate> {
        match self {
            RtcOperation::AddRemoteCandidate(candidate) => Some(candidate),
            _ => None,
        }
    }

    open spec fn describes(self) -> bool {
        self is SetRemoteDescription
    }
}

/// The operations that set a connection in a browser up have nothing to do with the remote session.
pub proof fn lemma_set_up_is_local(
    operations: Seq<RtcOperation>,
    configuration: IceConfiguration,
    channels: Seq<RtcDataChannelConfiguration>,
)
    requires
        sets_up(operations, configuration, channels),
    ensures
        crate::history::is_local(operations),
{
    let creations = choose|creations: Seq<RtcOperation>|
        #![trigger creates_channels(creations, channels)]
        creates_channels(creations, channels) && operations == seq![
            RtcOperation::CreateConnection(configuration),
        ] + creations + seq![RtcOperation::CreateOffer];
    assert forall|i: int| 0 <= i < operations.len() implies (
    #[trigger] operations[i]).candidate() is None && !operations[i].describes() by {
        if 0 < i < operations.len() - 1 {
            assert(operations[i] == creations[i - 1]);
            assert(creates_channel(creations[i - 1], channels[i - 1], i - 1));
        }
    }
}

/// The operations that an offer or an answer of the local session calls for have nothing to do with
/// the remote session.
pub proof fn lemma_told_description_is_local(
    sdp_type: RtcSdpType,
    sdp: String,
    message: RtcNegotiationMessage,
)
    ensures
        crate::history::is_local(seq![RtcOperation::SendMessage(message)]),
        crate::history::is_local(
            seq![
                RtcOperation::SetLocalDescription(sdp_type, sdp),
                RtcOperation::SendMessage(message),
            ],
        ),
{
}

/// Operations that apply candidates apply those, and set no description.
proof fn lemma_additions(candidates: Seq<RtcIceCandidate>, last: Seq<RtcOperation>)
    requires
        crate::history::is_local(last),
        last.len() <= 1,
    ensures
        crate::history::applied_by(additions(candidates) + last) == candidates,
        forall|i: int|
            0 <= i < (additions(candidates) + last).len() ==> !(
            #[trigger] (additions(candidates) + last)[i]).describes(),
    decreases candidates.len(),
{
    let operations = additions(candidates) + last;
    if candidates.len() > 0 {
        lemma_additions(candidates.drop_first(), last);
        assert(operations.drop_first() =~= additions(candidates.drop_first()) + last);
        assert(operations.first() == RtcOperation::AddRemoteCandidate(candidates[0]));
        assert(crate::history::applied_by(operations) =~= candidates);
        assert forall|i: int| 0 <= i < operations.len() implies !(
        #[trigger] operations[i]).describes() by {
            if i >= candidates.len() {
                assert(operations[i] == last[i - candidates.len()]);
            }
        }
    } else {
        assert(operations =~= last);
        if last.len() > 0 {
            assert(last.first() == last[0]);
            assert(last.drop_first() =~= Seq::empty());
            assert(crate::history::applied_by(last.drop_first()) =~= Seq::empty());
        }
        assert(crate::history::applied_by(operations) =~= candidates);
    }
}

/// However a connector in a browser answers a message from the remote peer, it does so in an
/// orderly way, as `lemma_negotiation_in_order` asks for.
pub proof fn lemma_inspection_is_possible(
    history: NegotiationHistory<RtcOperation>,
    local: RtcSessionDescription,
)
    requires
        history.negotiation.phase == RtcPhase::Inspecting,
    ensures
        ({
            let planned = plan(
                local,
                history.negotiation.candidate_buffer,
                history.described,
                history.negotiation.message->0,
            );
            history.possible(RtcEvent::Inspected(history.described, planned.0, Ok(planned.1)))
        }),
{
    let candidates = history.negotiation.candidate_buffer;
    let known = history.described;
    let message = history.negotiation.message->0;
    let (waiting, operations) = plan(local, candidates, known, message);
    if operations.len() > 0 && message is RemoteSessionDescription {
        let (n, last): (int, Seq<RtcOperation>) = if operations[0] is SetRemoteDescription {
            (0, seq![RtcOperation::CreateAnswer])
        } else {
            (1, Seq::empty())
        };
        assert(crate::history::is_local(last));
        lemma_additions(candidates, last);
        let tail = additions(candidates) + last;
        assert(operations.skip(n + 1) =~= tail);
        assert forall|i: int| n < i < operations.len() implies !(
        #[trigger] operations[i]).describes() by {
            assert(operations[i] == tail[i - n - 1]);
        }
        assert(crate::history::is_local(operations.take(n)));
        assert(crate::history::describes_at(operations, n, candidates));
        assert(crate::history::orderly(candidates, known, message, waiting, operations));
    }
}

/// Where two peers in browsers make an offer each, and the offers differ, exactly one of them
/// follows the other.
pub proof fn lemma_one_peer_follows(
    left: RtcSessionDescription,
    right: RtcSessionDescription,
    left_candidates: Seq<RtcIceCandidate>,
    right_candidates: Seq<RtcIceCandidate>,
)
    requires
        left.sdp@ != right.sdp@,
    ensures
        offer_plan(left, left_candidates, right) == (left_candidates, Seq::<RtcOperation>::empty())
            <==> offer_plan(right, right_candidates, left) != (
            right_candidates,
            Seq::<RtcOperation>::empty(),
        ),
{
    crate::text::lemma_text_order_is_total(left.sdp@, right.sdp@);
    let (_, left_operations) = offer_plan(left, left_candidates, right);
    let (_, right_operations) = offer_plan(right, right_candidates, left);
    assert(left_operations.len() == 0 <==> right_operations.len() > 0);
}

/// Where two peers in browsers make an offer each, the one whose offer precedes the other takes the
/// remote offer and creates an answer; the other one ignores the offer, and takes the answer along
/// with its own offer. Either then has the offer of one and the answer of the other.
pub proof fn lemma_handshake(
    follower: RtcSessionDescription,
    leader: RtcSessionDescription,
    follower_candidates: Seq<RtcIceCandidate>,
    leader_candidates: Seq<RtcIceCandidate>,
    answer: RtcSessionDescription,
    sdp: String,
)
    requires
        follower.sdp_type@ == RtcSdpType::Offer.text(),
        leader.sdp_type@ == RtcSdpType::Offer.text(),
        crate::text::text_precedes(follower.sdp@, leader.sdp@),
        is_answer(RtcNegotiationMessage::RemoteSessionDescription(answer), sdp),
    ensures
        plan(
            follower,
            follower_candidates,
            false,
            RtcNegotiationMessage::RemoteSessionDescription(leader),
        ) == (
            Seq::<RtcIceCandidate>::empty(),
            seq![RtcOperation::SetRemoteDescription(leader)] + additions(follower_candidates)
                + seq![RtcOperation::CreateAnswer],
        ),
        plan(
            leader,
            leader_candidates,
            false,
            RtcNegotiationMessage::RemoteSessionDescription(follower),
        ) == (leader_candidates, Seq::<RtcOperation>::empty()),
        plan(
            leader,
            leader_candidates,
            false,
            RtcNegotiationMessage::RemoteSessionDescription(answer),
        ) == (
            Seq::<RtcIceCandidate>::empty(),
            seq![
                RtcOperation::SetLocalDescription(RtcSdpType::Offer, leader.sdp),
                RtcOperation::SetRemoteDescription(answer),
            ] + additions(leader_candidates),
        ),
{
    crate::text::lemma_text_order_is_total(follower.sdp@, leader.sdp@);
    if answer.sdp_type@ == "offer"@ {
        crate::message::lemma_sdp_type_text_is_unique(RtcSdpType::Answer, RtcSdpType::Offer);
    }
}

/// Two peers that configure the same channels create them under the same labels and numbers, on
/// whichever platform either of them runs. These are the labels and the numbers that the owners of
/// the channels see.
pub proof fn lemma_peers_agree(
    configurations: Seq<RtcDataChannelConfiguration>,
    native: Seq<crate::native::RtcOperation>,
    web: Seq<RtcOperation>,
    i: int,
)
    requires
        crate::native::creates_channels(native, configurations),
        creates_channels(web, configurations),
        0 <= i < configurations.len(),
    ensures
        ({
            let channel = crate::channel::connected(configurations)[i];
            &&& native[i] matches crate::native::RtcOperation::CreateChannel(label, init)
                && label@ == channel.label && init.stream == channel.id && init.negotiated
            &&& web[i] matches RtcOperation::CreateChannel(label, init) && label@ == channel.label
                && init.id == channel.id && init.negotiated
        }),
{
    assert(crate::native::creates_channel(native[i], configurations[i], i));
    assert(creates_channel(web[i], configurations[i], i));
}

} // verus!
