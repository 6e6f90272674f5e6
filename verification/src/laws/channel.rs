//! Open channels.

use vstd::prelude::*;

use crate::channel::{
    HandlerStateView, RtcDataChannel, RtcDataChannelHandlerState, RtcDataChannelReadyState,
};
use crate::configuration::RtcDataChannelConfiguration;
use crate::error::{DataChannelErrorView, RtcDataChannelError};
use crate::exchange::{ChannelEvent, ChannelHistory};
use crate::poll::RtcPoll;

verus! {

/// A message that the transport accepts is sent: the owner is told so, and the channel is left as it
/// was.
pub proof fn lemma_accepted_message_is_sent<
    F: FnOnce(&[u8]) -> Result<(), RtcDataChannelError>,
>(
    channel: &mut RtcDataChannel,
    message: &[u8],
    transport: F,
    result: Result<(), RtcDataChannelError>,
)
    requires
        call_ensures(RtcDataChannel::send::<F>, (channel, message, transport), result),
        old(channel)@.previous_result is Ok,
        forall|outcome: Result<(), RtcDataChannelError>| #[trigger]
            call_ensures(transport, (message,), outcome) ==> outcome is Ok,
    ensures
        result is Ok,
        final(channel)@ == old(channel)@,
{
}

/// The owner of a channel that has not failed is told of success exactly where the transport, given
/// the same message, can have answered with one.
pub proof fn lemma_transport_decides<F: FnOnce(&[u8]) -> Result<(), RtcDataChannelError>>(
    channel: &mut RtcDataChannel,
    message: &[u8],
    transport: F,
    result: Result<(), RtcDataChannelError>,
)
    requires
        call_ensures(RtcDataChannel::send::<F>, (channel, message, transport), result),
        old(channel)@.previous_result is Ok,
    ensures
        exists|outcome: Result<(), RtcDataChannelError>| #[trigger]
            call_ensures(transport, (message,), outcome) && (outcome is Ok <==> result is Ok),
        final(channel)@.previous_result is Ok <==> result is Ok,
{
}

/// A message that the transport refuses fails the channel. The error shows what the transport said,
/// and every later exchange fails with the same error, whatever the transport or the events of the
/// channel have to offer.
pub proof fn lemma_refused_message_fails_the_channel<
    F: FnOnce(&[u8]) -> Result<(), RtcDataChannelError>,
    G: FnOnce(&[u8]) -> Result<(), RtcDataChannelError>,
>(
    channel: &mut RtcDataChannel,
    message: &[u8],
    transport: F,
    reason: String,
    result: Result<(), RtcDataChannelError>,
    sender: &mut RtcDataChannel,
    other_message: &[u8],
    other_transport: G,
    sent: Result<(), RtcDataChannelError>,
    reader: &mut RtcDataChannel,
    state: &mut RtcDataChannelHandlerState,
    read: Result<Option<Box<[u8]>>, RtcDataChannelError>,
    shown: RtcDataChannelReadyState,
)
    requires
        call_ensures(RtcDataChannel::send::<F>, (channel, message, transport), result),
        old(channel)@.previous_result is Ok,
        forall|outcome: Result<(), RtcDataChannelError>| #[trigger]
            call_ensures(transport, (message,), outcome) ==> outcome == Err::<(), _>(
                RtcDataChannelError::Send(reason),
            ),
        *old(sender) == *final(channel),
        call_ensures(
            RtcDataChannel::send::<G>,
            (sender, other_message, other_transport),
            sent,
        ),
        *old(reader) == *final(sender),
        call_ensures(RtcDataChannel::receive, (reader, state), read),
        call_ensures(RtcDataChannel::ready_state, (final(reader), final(state)), shown),
    ensures
        result matches Err(RtcDataChannelError::Send(text)) && text@
            == "An error occurred during message sending: "@ + reason@,
        sent matches Err(error) && error@ == result->Err_0@,
        read matches Err(error) && error@ == result->Err_0@,
        final(state)@ == old(state)@,
        shown is Closed,
{
}

/// Exchanges leave the names of a channel alone, and those are the names that it was made with.
pub proof fn lemma_names_are_kept<F: FnOnce(&[u8]) -> Result<(), RtcDataChannelError>>(
    label: String,
    id: u16,
    made: RtcDataChannel,
    sender: &mut RtcDataChannel,
    message: &[u8],
    transport: F,
    sent: Result<(), RtcDataChannelError>,
    reader: &mut RtcDataChannel,
    state: &mut RtcDataChannelHandlerState,
    read: Result<Option<Box<[u8]>>, RtcDataChannelError>,
    shown_label: &str,
    shown_id: u16,
)
    requires
        call_ensures(RtcDataChannel::new, (label, id), made),
        *old(sender) == made,
        call_ensures(RtcDataChannel::send::<F>, (sender, message, transport), sent),
        *old(reader) == *final(sender),
        call_ensures(RtcDataChannel::receive, (reader, state), read),
        call_ensures(RtcDataChannel::label, (final(reader),), shown_label),
        call_ensures(RtcDataChannel::id, (final(reader),), shown_id),
    ensures
        shown_label@ == label@,
        shown_id == id,
{
}

/// A connection hands over one channel for each configuration, in order, under its label and its
/// place for a number. None of them has failed: each sends what its transport accepts, reads what
/// arrives, and shows the state of its handler.
pub proof fn lemma_handed_over_channels_are_usable<
    F: FnOnce(&[u8]) -> Result<(), RtcDataChannelError>,
>(
    configurations: Vec<RtcDataChannelConfiguration>,
    channels: Vec<RtcDataChannel>,
    i: int,
    state: RtcDataChannelHandlerState,
    channel_shows: RtcDataChannelReadyState,
    handler_shows: RtcDataChannelReadyState,
    sender: &mut RtcDataChannel,
    message: &[u8],
    transport: F,
    sent: Result<(), RtcDataChannelError>,
    reader: &mut RtcDataChannel,
    events: &mut RtcDataChannelHandlerState,
    read: Result<Option<Box<[u8]>>, RtcDataChannelError>,
)
    requires
        call_ensures(
            crate::channel::collate_connected_channels,
            (&configurations,),
            channels,
        ),
        0 <= i < channels@.len() ==> {
            &&& call_ensures(RtcDataChannel::ready_state, (&channels@[i], &state), channel_shows)
            &&& call_ensures(RtcDataChannelHandlerState::ready_state, (&state,), handler_shows)
            &&& *old(sender) == channels@[i]
            &&& call_ensures(RtcDataChannel::send::<F>, (sender, message, transport), sent)
            &&& *old(reader) == channels@[i]
            &&& call_ensures(RtcDataChannel::receive, (reader, events), read)
        },
        forall|outcome: Result<(), RtcDataChannelError>| #[trigger]
            call_ensures(transport, (message,), outcome) ==> outcome is Ok,
    ensures
        channels@.len() == configurations@.len(),
        0 <= i < channels@.len() ==> {
            &&& channels@[i]@.label == configurations@[i].label@
            &&& channels@[i]@.id == i % 0x1_0000
            &&& channels@[i]@.previous_result is Ok
            &&& channel_shows == handler_shows
            &&& sent is Ok
            &&& old(events)@.arrivals.len() == 0 ==> read == Ok::<
                Option<Box<[u8]>>,
                RtcDataChannelError,
            >(None)
        },
{
    let views = channels@.map_values(|channel: RtcDataChannel| channel@);
    assert(views.len() == channels@.len());
    if 0 <= i < channels@.len() {
        assert(views[i] == channels@[i]@);
    }
}

/// Whatever their place, the channels of a connection have failed in nothing; and the same number
/// comes again only 65536 places later.
pub proof fn lemma_connected_channels(
    configurations: Seq<RtcDataChannelConfiguration>,
    i: int,
    j: int,
)
    requires
        0 <= i < j < configurations.len(),
    ensures
        crate::channel::connected(configurations)[i].previous_result is Ok,
        crate::channel::connected(configurations)[j].previous_result is Ok,
        crate::channel::connected(configurations)[i].id == crate::channel::connected(
            configurations,
        )[j].id <==> (j - i) % 0x1_0000 == 0,
{
}

/// A message that arrives on a channel where nothing waits is the next one that its owner reads,
/// and then nothing waits again.
pub proof fn lemma_arrived_message_is_read(
    noticing: &mut RtcDataChannelHandlerState,
    message: &[u8],
    wake: bool,
    channel: &mut RtcDataChannel,
    reading: &mut RtcDataChannelHandlerState,
    read: Result<Option<Box<[u8]>>, RtcDataChannelError>,
)
    requires
        old(noticing)@.arrivals.len() == 0,
        call_ensures(RtcDataChannelHandlerState::on_message, (noticing, message), wake),
        *old(reading) == *final(noticing),
        old(channel)@.previous_result is Ok,
        call_ensures(RtcDataChannel::receive, (channel, reading), read),
    ensures
        wake,
        read matches Ok(Some(bytes)) && bytes@ == message@,
        final(channel)@ == old(channel)@,
        final(reading)@ == old(noticing)@,
{
    assert(final(reading)@.arrivals =~= old(noticing)@.arrivals);
}

/// A new channel is being established, nothing has arrived on it, and it has not failed.
pub proof fn lemma_new_channel(
    label: String,
    id: u16,
    channel: RtcDataChannel,
    state: RtcDataChannelHandlerState,
    shown: RtcDataChannelReadyState,
)
    requires
        call_ensures(RtcDataChannel::new, (label, id), channel),
        call_ensures(RtcDataChannelHandlerState::new, (), state),
        call_ensures(RtcDataChannel::ready_state, (&channel, &state), shown),
    ensures
        shown is Connecting,
        state@.arrivals.len() == 0,
        channel@.previous_result is Ok,
        (channel@, state@) == (
            ChannelHistory::begun(label@, id).channel,
            ChannelHistory::begun(label@, id).state,
        ),
{
}

/// What the events of a channel do to its state, and whether they wake a waiting task: an opening, a
/// message and an end are noticed as what they are, with their bytes and their reasons.
pub proof fn lemma_events_are_noticed(
    history: ChannelHistory,
    opened: &mut RtcDataChannelHandlerState,
    arrived: &mut RtcDataChannelHandlerState,
    message: &[u8],
    arrived_wakes: bool,
    closed: &mut RtcDataChannelHandlerState,
    closed_wakes: bool,
    failed: &mut RtcDataChannelHandlerState,
    error: &str,
    failed_wakes: bool,
)
    requires
        old(opened)@ == history.state,
        call_ensures(RtcDataChannelHandlerState::on_open, (opened,), ()),
        old(arrived)@ == history.state,
        call_ensures(RtcDataChannelHandlerState::on_message, (arrived, message), arrived_wakes),
        old(closed)@ == history.state,
        call_ensures(RtcDataChannelHandlerState::on_closed, (closed,), closed_wakes),
        old(failed)@ == history.state,
        call_ensures(RtcDataChannelHandlerState::on_error, (failed, error), failed_wakes),
    ensures
        final(opened)@ == history.after(ChannelEvent::Opened).state,
        final(arrived)@ == history.after(ChannelEvent::Arrived(message@)).state,
        arrived_wakes,
        final(closed)@ == history.after(ChannelEvent::Ended("The channel was closed."@)).state,
        !closed_wakes,
        final(failed)@ == history.after(
            ChannelEvent::Ended("The channel encountered an error: "@ + error@),
        ).state,
        !failed_wakes,
{
}

/// What the events of a channel in a browser do to its state: bytes are a message, and anything else
/// is the end, for the reason that it shows. All of them wake a waiting task.
pub proof fn lemma_browser_events_are_noticed(
    history: ChannelHistory,
    closed: &mut RtcDataChannelHandlerState,
    event: String,
    closed_wakes: bool,
    arrived: &mut RtcDataChannelHandlerState,
    data: Result<Vec<u8>, String>,
    arrived_wakes: bool,
)
    requires
        old(closed)@ == history.state,
        call_ensures(RtcDataChannelHandlerState::on_close_event, (closed, event), closed_wakes),
        old(arrived)@ == history.state,
        call_ensures(RtcDataChannelHandlerState::on_message_event, (arrived, data), arrived_wakes),
    ensures
        final(closed)@ == history.after(ChannelEvent::Ended(event@)).state,
        closed_wakes,
        data matches Ok(bytes) ==> final(arrived)@ == history.after(
            ChannelEvent::Arrived(bytes@),
        ).state,
        data matches Err(text) ==> final(arrived)@ == history.after(
            ChannelEvent::Ended(text@),
        ).state,
        arrived_wakes,
{
}

/// Opening makes a channel open where it was being established, and does nothing else; a message
/// only joins what has arrived, at the end; an end closes the channel for good.
pub proof fn lemma_state_after_events(
    state: HandlerStateView,
    message: Seq<u8>,
    reason: Seq<char>,
)
    ensures
        state.opened().arrivals == state.arrivals,
        state.ready_state is Connecting ==> state.opened().ready_state is Open,
        !(state.ready_state is Connecting) ==> state.opened().ready_state == state.ready_state,
        state.message(message).ready_state == state.ready_state,
        state.message(message).arrivals.drop_last() == state.arrivals,
        state.message(message).arrivals.last() == Ok::<Seq<u8>, DataChannelErrorView>(message),
        state.closed(reason).ready_state is Closed,
        state.closed(reason).opened().ready_state is Closed,
        state.closed(reason).arrivals.drop_last() == state.arrivals,
        state.closed(reason).arrivals.last() == Err::<Seq<u8>, _>(
            DataChannelErrorView::Receive(reason),
        ),
{
    assert(state.message(message).arrivals.drop_last() =~= state.arrivals);
    assert(state.closed(reason).arrivals.drop_last() =~= state.arrivals);
}

/// What reading takes and tells: the oldest of what has arrived, and nothing besides.
pub proof fn lemma_reading_takes_the_oldest(
    channel: &mut RtcDataChannel,
    state: &mut RtcDataChannelHandlerState,
    read: Result<Option<Box<[u8]>>, RtcDataChannelError>,
)
    requires
        call_ensures(RtcDataChannel::receive, (channel, state), read),
        old(channel)@.previous_result is Ok,
    ensures
        final(state)@.ready_state == old(state)@.ready_state,
        final(channel)@.label == old(channel)@.label,
        final(channel)@.id == old(channel)@.id,
        final(channel)@.previous_result is Err <==> read is Err,
        match read {
            Ok(None) => old(state)@.arrivals.len() == 0 && final(state)@.arrivals.len() == 0,
            Ok(Some(message)) => old(state)@.arrivals == seq![
                Ok::<Seq<u8>, DataChannelErrorView>(message@),
            ] + final(state)@.arrivals,
            Err(error) => {
                &&& old(state)@.arrivals == seq![Err::<Seq<u8>, _>(error@)]
                    + final(state)@.arrivals
                &&& final(channel)@.previous_result == Err::<(), _>(error@)
            },
        },
{
    if old(state)@.arrivals.len() > 0 {
        assert(old(state)@.arrivals =~= seq![old(state)@.arrivals.first()]
            + old(state)@.arrivals.drop_first());
    }
}

/// Polling is reading: from the same channel and the same state both tell the same and leave the
/// same behind, except that polling is pending where there is nothing to read.
pub proof fn lemma_polling_is_reading(
    polled: &mut RtcDataChannel,
    polled_state: &mut RtcDataChannelHandlerState,
    poll: RtcPoll<Result<Box<[u8]>, RtcDataChannelError>>,
    read: &mut RtcDataChannel,
    read_state: &mut RtcDataChannelHandlerState,
    result: Result<Option<Box<[u8]>>, RtcDataChannelError>,
)
    requires
        *old(polled) == *old(read),
        *old(polled_state) == *old(read_state),
        call_ensures(RtcDataChannel::poll_receive, (polled, polled_state), poll),
        call_ensures(RtcDataChannel::receive, (read, read_state), result),
    ensures
        final(polled)@ == final(read)@,
        final(polled_state)@ == final(read_state)@,
        poll is Pending <==> result == Ok::<Option<Box<[u8]>>, RtcDataChannelError>(None),
        result matches Ok(Some(message)) ==> (poll matches RtcPoll::Ready(Ok(bytes)) && bytes@
            == message@),
        result matches Err(error) ==> (poll matches RtcPoll::Ready(Err(e)) && e@ == error@),
{
}

/// The state that the owner of a channel sees is that of the handler, until an exchange fails.
pub proof fn lemma_shown_state(
    channel: RtcDataChannel,
    state: RtcDataChannelHandlerState,
    shown: RtcDataChannelReadyState,
    handler_shows: RtcDataChannelReadyState,
)
    requires
        call_ensures(RtcDataChannel::ready_state, (&channel, &state), shown),
        call_ensures(RtcDataChannelHandlerState::ready_state, (&state,), handler_shows),
    ensures
        handler_shows == state@.ready_state,
        channel@.previous_result is Ok ==> shown == handler_shows,
        channel@.previous_result is Err ==> shown is Closed,
{
}

/// A state is read back from the number that was written for it, and only from that one. There are
/// four of them, in the order of a channel's life.
pub proof fn lemma_state_is_read_back(
    state: RtcDataChannelReadyState,
    number: u8,
    value: u8,
    read: Result<RtcDataChannelReadyState, &'static str>,
)
    requires
        call_ensures(RtcDataChannelReadyState::as_u8, (state,), number),
        call_ensures(<RtcDataChannelReadyState as TryFrom<u8>>::try_from, (value,), read),
    ensures
        read == Ok::<RtcDataChannelReadyState, &'static str>(state) <==> value == number,
        read is Err <==> value > 3,
        state is Connecting <==> number == 0,
        state is Open <==> number == 1,
        state is Closing <==> number == 2,
        state is Closed <==> number == 3,
{
}

} // verus!
