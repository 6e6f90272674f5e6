//! Connections in browsers: how they are configured, and how the remote peer is answered.

use vstd::prelude::*;

use crate::configuration::{IceConfiguration, RtcDataChannelConfiguration, RtcReliabilityMode};
use crate::error::RtcPeerConnectionError;
use crate::history::{NegotiationHistory, RemoteOperation};
use crate::message::{
    RtcIceCandidate, RtcNegotiationMessage, RtcNegotiationNotification, RtcSdpType,
    RtcSessionDescription,
};
use crate::negotiation::{RtcAction, RtcPhase};
use crate::web::{
    RtcDataChannelInit, RtcDispatch, RtcOperation, RtcOutbox, RtcPeerConnector,
};

verus! {

/// Whether a channel in a browser is created as it was configured. It is ordered exactly where that
/// was asked for, in every mode. It has the limit that was asked for and no other, and the
/// subprotocol that was asked for; and both peers know its number beforehand.
pub open spec fn is_as_configured(
    init: RtcDataChannelInit,
    configuration: RtcDataChannelConfiguration,
) -> bool {
    &&& init.ordered <==> configuration.ordered
    &&& match configuration.reliability {
        RtcReliabilityMode::Reliable() => init.max_retransmits is None
            && init.max_packet_life_time is None,
        RtcReliabilityMode::MaxRetransmits(count) => init.max_retransmits == Some(count)
            && init.max_packet_life_time is None,
        RtcReliabilityMode::MaxPacketLifetime(lifetime) => init.max_retransmits is None
            && init.max_packet_life_time == Some(lifetime.milliseconds()),
    }
    &&& init.protocol is Some <==> configuration.protocol is Some
    &&& configuration.protocol matches Some(protocol) ==> init.protocol->0@ == protocol@
    &&& init.negotiated
}

/// A channel in a browser is created as it was configured, under the number that it is given.
pub proof fn lemma_channel_is_as_configured(
    configuration: RtcDataChannelConfiguration,
    init: RtcDataChannelInit,
    id: u16,
    numbered: RtcDataChannelInit,
)
    requires
        call_ensures(RtcDataChannelInit::from, (&configuration,), init),
        call_ensures(RtcDataChannelInit::id, (init, id), numbered),
    ensures
        is_as_configured(init, configuration),
        init.id == 0,
        is_as_configured(numbered, configuration),
        numbered.id == id,
{
}

/// There is one channel for each configuration, in order, created as configured under its label and
/// its place for a number.
pub proof fn lemma_channels_are_as_configured(
    configurations: Vec<RtcDataChannelConfiguration>,
    operations: Vec<RtcOperation>,
    i: int,
)
    requires
        call_ensures(crate::web::create_channels, (&configurations,), operations),
    ensures
        operations@.len() == configurations@.len(),
        0 <= i < configurations@.len() ==> (operations@[i] matches RtcOperation::CreateChannel(label, init) && label@
            == configurations@[i].label@ && is_as_configured(init, configurations@[i]) && init.id
            == i % 0x1_0000),
{
    if 0 <= i < configurations@.len() {
        assert(crate::web::creates_channel(operations@[i], configurations@[i], i));
    }
}

/// A connector in a browser begins by creating a connection with just the configuration that was
/// given; then, while everything succeeds, it creates each channel as configured, in order, and then
/// an offer. As many channels have to open as there are configurations.
pub proof fn lemma_connect_sets_up(
    configuration: IceConfiguration,
    configurations: Vec<RtcDataChannelConfiguration>,
    begun: (RtcPeerConnector, RtcAction<RtcOperation>),
    history: NegotiationHistory<RtcOperation>,
    i: int,
)
    requires
        call_ensures(RtcPeerConnector::connect, (configuration, &configurations), begun),
        history.negotiation == begun.0.negotiation@,
    ensures
        begun.0.local_description is None,
        begun.0.negotiation.channel_count == configurations@.len(),
        begun.0.negotiation.phase == RtcPhase::Working,
        begun.0.negotiation.candidate_buffer@.len() == 0,
        begun.1 == RtcAction::Perform(RtcOperation::CreateConnection(configuration)),
        0 <= i < configurations@.len() ==> (history.after_all(
            crate::laws::negotiation::successes((i + 1) as nat),
        ).action matches RtcAction::Perform(RtcOperation::CreateChannel(label, init)) && label@
            == configurations@[i].label@ && is_as_configured(init, configurations@[i]) && init.id
            == i % 0x1_0000),
        history.after_all(
            crate::laws::negotiation::successes((configurations@.len() + 1) as nat),
        ).action == RtcAction::Perform(RtcOperation::CreateOffer),
        history.negotiation.operations.len() == configurations@.len() + 1,
{
    let operations = choose|operations: Seq<RtcOperation>|
        #![trigger crate::web::sets_up(operations, configuration, configurations@)]
        crate::web::sets_up(operations, configuration, configurations@) && (
            begun.0.negotiation@,
            begun.1,
        ) == crate::negotiation::NegotiationView::initial(
            configurations@.len(),
            operations,
        ).advance();
    let creations = choose|creations: Seq<RtcOperation>|
        #![trigger crate::web::creates_channels(creations, configurations@)]
        crate::web::creates_channels(creations, configurations@) && operations == seq![
            RtcOperation::CreateConnection(configuration),
        ] + creations + seq![RtcOperation::CreateOffer];
    let left = operations.drop_first();
    assert(operations.first() == operations[0]);
    assert(history.negotiation.operations == left);
    assert(left[creations.len() as int] == RtcOperation::CreateOffer);
    if 0 <= i < configurations@.len() {
        assert(left[i] == creations[i]);
        assert(crate::web::creates_channel(creations[i], configurations@[i], i));
        crate::laws::negotiation::lemma_operations_follow_each_other(history, i as nat);
    }
    crate::laws::negotiation::lemma_operations_follow_each_other(history, creations.len());
}

/// An offer that was made is kept, and told as it is once everything that was left is done. A failure
/// to make one ends the negotiation, and is reported as it is.
pub proof fn lemma_offer_is_told(
    connector: &mut RtcPeerConnector,
    outcome: Result<RtcSessionDescription, RtcPeerConnectionError>,
    action: RtcAction<RtcOperation>,
)
    requires
        old(connector).negotiation@.well_formed(),
        old(connector).negotiation.phase == RtcPhase::Working,
        call_ensures(RtcPeerConnector::offered, (connector, outcome), action),
    ensures
        match outcome {
            Ok(offer) => {
                &&& final(connector).local_description == Some(offer)
                &&& crate::laws::negotiation::goes_on(
                    old(connector).negotiation@,
                    old(connector).negotiation.operations@.push(
                        RtcOperation::SendMessage(
                            RtcNegotiationMessage::RemoteSessionDescription(offer),
                        ),
                    ),
                    old(connector).negotiation.messages@,
                    final(connector).negotiation@,
                    action,
                )
                &&& final(connector).negotiation.candidate_buffer@ == old(
                    connector).negotiation.candidate_buffer@
            },
            Err(error) => {
                &&& action == RtcAction::<RtcOperation>::Finish(Err(error))
                &&& final(connector).negotiation.phase == RtcPhase::Finished
                &&& final(connector).local_description == old(connector).local_description
            },
        },
{
    if let Ok(offer) = outcome {
        let told = RtcOperation::SendMessage(
            RtcNegotiationMessage::RemoteSessionDescription(offer),
        );
        let before = old(connector).negotiation@;
        let after = final(connector).negotiation@;
        assert(before.operations + seq![told] =~= before.operations.push(told));
        assert(crate::laws::negotiation::asked(action) + after.operations
            =~= before.operations.push(told));
        assert(crate::history::current(after.message) + after.messages =~= before.messages);
    }
}

/// An answer that was made is set, and then told, once everything that was left is done; the offer of
/// the local session stays what it was. A failure to make one ends the negotiation.
pub proof fn lemma_answer_is_told(
    connector: &mut RtcPeerConnector,
    outcome: Result<String, String>,
    action: RtcAction<RtcOperation>,
)
    requires
        old(connector).negotiation@.well_formed(),
        old(connector).negotiation.phase == RtcPhase::Working,
        call_ensures(RtcPeerConnector::answered, (connector, outcome), action),
    ensures
        final(connector).local_description == old(connector).local_description,
        match outcome {
            Ok(sdp) => exists|told: RtcSessionDescription|
                {
                    &&& told.sdp@ == sdp@
                    &&& told.sdp_type@ == "answer"@
                    &&& #[trigger] crate::laws::negotiation::goes_on(
                        old(connector).negotiation@,
                        old(connector).negotiation.operations@.push(
                            RtcOperation::SetLocalDescription(RtcSdpType::Answer, sdp),
                        ).push(
                            RtcOperation::SendMessage(
                                RtcNegotiationMessage::RemoteSessionDescription(told),
                            ),
                        ),
                        old(connector).negotiation.messages@,
                        final(connector).negotiation@,
                        action,
                    )
                },
            Err(reason) => {
                &&& action == RtcAction::<RtcOperation>::Finish(
                    Err(RtcPeerConnectionError::Negotiation(reason)),
                )
                &&& final(connector).negotiation.phase == RtcPhase::Finished
            },
        },
{
    if let Ok(sdp) = outcome {
        let before = old(connector).negotiation@;
        let after = final(connector).negotiation@;
        let set = RtcOperation::SetLocalDescription(RtcSdpType::Answer, sdp);
        let message = choose|message: RtcNegotiationMessage|
            #![trigger crate::web::is_answer(message, sdp)]
            crate::web::is_answer(message, sdp) && (after, action) == before.succeeded(
                seq![set, RtcOperation::SendMessage(message)],
            );
        let told = message->RemoteSessionDescription_0;
        let tell = RtcOperation::SendMessage(
            RtcNegotiationMessage::RemoteSessionDescription(told),
        );
        let work = before.operations.push(set).push(tell);
        assert(before.operations + seq![set, tell] =~= work);
        assert(crate::laws::negotiation::asked(action) + after.operations =~= work);
        assert(crate::history::current(after.message) + after.messages =~= before.messages);
        assert(crate::laws::negotiation::goes_on(
            before,
            work,
            before.messages,
            after,
            action,
        ));
    }
}

/// Whether operations apply candidates, in order, beginning at a place.
pub open spec fn applies_from(
    operations: Seq<RtcOperation>,
    place: int,
    candidates: Seq<RtcIceCandidate>,
) -> bool {
    forall|i: int|
        0 <= i < candidates.len() ==> #[trigger] operations[place + i]
            == RtcOperation::AddRemoteCandidate(candidates[i])
}

/// How a peer in a browser answers a message. A candidate is applied where there is a remote
/// description, and waits behind the others where there is none. A first offer is taken exactly where
/// the own offer precedes it: it is set, then all waiting candidates are applied, then an answer is
/// created. Any other first description is taken as an answer: the own offer is set, then the answer,
/// then all waiting candidates are applied. A later description is ignored.
pub proof fn lemma_message_is_answered(
    local: RtcSessionDescription,
    candidates: &mut Vec<RtcIceCandidate>,
    known: bool,
    message: RtcNegotiationMessage,
    operations: Vec<RtcOperation>,
)
    requires
        call_ensures(
            crate::web::receive_negotiation_message,
            (&local, candidates, known, message),
            operations,
        ),
    ensures
        match message {
            RtcNegotiationMessage::RemoteCandidate(candidate) => {
                &&& known ==> operations@ == seq![RtcOperation::AddRemoteCandidate(candidate)]
                    && final(candidates)@ == old(candidates)@
                &&& !known ==> operations@.len() == 0 && final(candidates)@ == old(
                    candidates)@.push(candidate)
            },
            RtcNegotiationMessage::RemoteSessionDescription(description) => {
                let waiting = old(candidates)@;
                let n = waiting.len() as int;
                let offered = description.sdp_type@ == "offer"@;
                let ignored = known || offered && !crate::text::text_precedes(
                    local.sdp@,
                    description.sdp@,
                );
                &&& ignored ==> operations@.len() == 0 && final(candidates)@ == waiting
                &&& !ignored ==> final(candidates)@.len() == 0
                &&& !ignored && offered ==> {
                    &&& operations@.len() == n + 2
                    &&& operations@[0] == RtcOperation::SetRemoteDescription(description)
                    &&& applies_from(operations@, 1, waiting)
                    &&& operations@[n + 1] is CreateAnswer
                }
                &&& !ignored && !offered ==> {
                    &&& operations@.len() == n + 2
                    &&& operations@[0] == RtcOperation::SetLocalDescription(
                        RtcSdpType::Offer,
                        local.sdp,
                    )
                    &&& operations@[1] == RtcOperation::SetRemoteDescription(description)
                    &&& applies_from(operations@, 2, waiting)
                }
            },
        },
{
}

/// How a connector in a browser goes on after a message: what the message calls for comes first, the
/// messages after it are left, and the offer of the local session stays the same.
pub proof fn lemma_connector_answers(
    connector: &mut RtcPeerConnector,
    known: bool,
    action: RtcAction<RtcOperation>,
    candidates: &mut Vec<RtcIceCandidate>,
    operations: Vec<RtcOperation>,
)
    requires
        old(connector).negotiation@.well_formed(),
        old(connector).negotiation.phase == RtcPhase::Inspecting,
        old(connector).local_description is Some,
        call_ensures(RtcPeerConnector::remote_description, (connector, known), action),
        old(candidates)@ == old(connector).negotiation.candidate_buffer@,
        call_ensures(
            crate::web::receive_negotiation_message,
            (
                &old(connector).local_description->0,
                candidates,
                known,
                old(connector).negotiation.message->0,
            ),
            operations,
        ),
    ensures
        final(connector).local_description == old(connector).local_description,
        final(connector).negotiation.candidate_buffer@ == final(candidates)@,
        crate::laws::negotiation::goes_on(
            old(connector).negotiation@,
            operations@,
            old(connector).negotiation.messages@,
            final(connector).negotiation@,
            action,
        ),
{
    let before = old(connector).negotiation@;
    let after = final(connector).negotiation@;
    assert(crate::laws::negotiation::asked(action) + after.operations =~= operations@);
    assert(crate::history::current(after.message) + after.messages =~= before.messages);
}

/// The offer of a browser is described as it is, in the role that the browser names. A role that is
/// none of the known ones, and a failure to make an offer, are failures of negotiation.
pub proof fn lemma_offer_is_described(
    outcome: Result<(Option<RtcSdpType>, String), String>,
    offer: Result<RtcSessionDescription, RtcPeerConnectionError>,
    word: &'static str,
)
    requires
        call_ensures(crate::web::create_offer, (outcome,), offer),
        outcome matches Ok((Some(sdp_type), _)) ==> call_ensures(
            RtcSdpType::as_str,
            (sdp_type,),
            word,
        ),
    ensures
        match outcome {
            Ok((Some(_), sdp)) => offer matches Ok(description) && description.sdp@ == sdp@
                && description.sdp_type@ == word@,
            Ok((None, _)) => offer matches Err(RtcPeerConnectionError::Negotiation(reason))
                && reason@ == "Unexpected SDP type"@,
            Err(reason) => offer matches Err(RtcPeerConnectionError::Negotiation(told)) && told@
                == reason@,
        },
{
}

/// A candidate that the local peer has found is told as it is, with an empty identification where it
/// has none; and the end of the candidates is told as an empty one.
pub proof fn lemma_candidate_is_told(
    candidate: Option<(String, Option<String>)>,
    notification: RtcNegotiationNotification,
)
    requires
        call_ensures(crate::web::on_ice_candidate, (candidate,), notification),
    ensures
        notification matches RtcNegotiationNotification::SendMessage(
            RtcNegotiationMessage::RemoteCandidate(told),
        ) && match candidate {
            Some((name, Some(mid))) => told.candidate@ == name@ && told.sdp_mid@ == mid@,
            Some((name, None)) => told.candidate@ == name@ && told.sdp_mid@.len() == 0,
            None => told.candidate@.len() == 0 && told.sdp_mid@.len() == 0,
        },
{
}

/// A connection that fails, and nothing else that happens to it, is a failure of ICE.
pub proof fn lemma_failed_connection_is_noticed(
    state: &str,
    notification: Option<RtcNegotiationNotification>,
)
    requires
        call_ensures(crate::web::on_connection_state_change, (state,), notification),
    ensures
        notification is Some <==> state@ == "failed"@,
        notification matches Some(notification) ==> {
            &&& notification matches RtcNegotiationNotification::Failed(
                RtcPeerConnectionError::IceNegotiationFailure(reason),
            )
            &&& reason@ == "ICE protocol could not find a valid candidate pair."@
        },
{
}

/// A message that another thread leaves in an empty outbox is the next one to be sent, and nothing
/// waits afterwards; the thread that the channel belongs to sends its own at once, and leaves what
/// waits alone.
pub proof fn lemma_message_leaves(
    made: RtcOutbox,
    leaving: &mut RtcOutbox,
    message: &[u8],
    owns_channel: bool,
    dispatch: RtcDispatch,
    taking: &mut RtcOutbox,
    taken: Option<Vec<u8>>,
)
    requires
        call_ensures(RtcOutbox::new, (), made),
        *old(leaving) == made,
        call_ensures(RtcOutbox::dispatch, (leaving, message, owns_channel), dispatch),
        *old(taking) == *final(leaving),
        call_ensures(RtcOutbox::next, (taking,), taken),
    ensures
        dispatch is Immediate <==> owns_channel,
        taken is None <==> owns_channel,
        taken matches Some(bytes) ==> bytes@ == message@,
        final(taking)@ == made@,
{
    assert(final(taking)@ =~= made@);
}

/// Messages wait in the order in which they were left: one more goes to the end, and the one that is
/// taken comes from the front.
pub proof fn lemma_messages_wait_in_order(
    leaving: &mut RtcOutbox,
    message: &[u8],
    owns_channel: bool,
    dispatch: RtcDispatch,
    taking: &mut RtcOutbox,
    taken: Option<Vec<u8>>,
)
    requires
        call_ensures(RtcOutbox::dispatch, (leaving, message, owns_channel), dispatch),
        call_ensures(RtcOutbox::next, (taking,), taken),
    ensures
        final(leaving)@ == if owns_channel {
            old(leaving)@
        } else {
            old(leaving)@ + seq![message@]
        },
        old(taking)@ == match taken {
            Some(bytes) => seq![bytes@] + final(taking)@,
            None => Seq::empty(),
        },
        taken is None ==> final(taking)@.len() == 0,
{
    assert(old(leaving)@.push(message@) =~= old(leaving)@ + seq![message@]);
    if old(taking)@.len() > 0 {
        assert(old(taking)@ =~= seq![old(taking)@.first()] + old(taking)@.drop_first());
    } else {
        assert(old(taking)@ =~= Seq::empty());
    }
}

/// Which operations have to do with the remote session.
pub proof fn lemma_remote_operations(operation: RtcOperation)
    ensures
        operation.describes() <==> operation is SetRemoteDescription,
        operation.candidate() is Some <==> operation is AddRemoteCandidate,
        operation matches RtcOperation::AddRemoteCandidate(candidate) ==> operation.candidate()
            == Some(candidate),
{
}

} // verus!
