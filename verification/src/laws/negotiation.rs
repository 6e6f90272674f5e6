//! Negotiations: what is asked for next, whatever has just happened.

use vstd::prelude::*;

use crate::error::RtcPeerConnectionError;
use crate::history::{NegotiationHistory, RemoteOperation, RtcEvent};
use crate::message::{RtcIceCandidate, RtcNegotiationMessage, RtcNegotiationNotification};
use crate::negotiation::{NegotiationView, RtcAction, RtcNegotiation, RtcPhase};

verus! {

/// In every round in which fewer channels are open than were asked for, whatever their number, the
/// notifications are polled next; where there is none, the messages of the remote peer are received;
/// and where there is a message to send, that message is sent. Nothing else changes on the way.
pub proof fn lemma_round_makes_progress<O>(
    counting: &mut RtcNegotiation<O>,
    count: usize,
    after_count: RtcAction<O>,
    polling: &mut RtcNegotiation<O>,
    notification: Option<RtcNegotiationNotification>,
    after_poll: RtcAction<O>,
)
    requires
        old(counting).phase == RtcPhase::Counting,
        count < old(counting).channel_count,
        call_ensures(RtcNegotiation::<O>::open_channels, (counting, count), after_count),
        *old(polling) == *final(counting),
        call_ensures(RtcNegotiation::<O>::notified, (polling, notification), after_poll),
    ensures
        after_count is PollNotifications,
        final(counting).phase == RtcPhase::Polling,
        notification is None ==> after_poll is ReceiveMessages && final(polling).phase
            == RtcPhase::Receiving,
        notification matches Some(RtcNegotiationNotification::SendMessage(message)) ==> after_poll
            == RtcAction::<O>::SendMessage(message) && final(polling).phase == RtcPhase::Working,
        notification matches Some(RtcNegotiationNotification::Failed(error)) ==> after_poll
            == RtcAction::<O>::Finish(Err(error)) && final(polling).phase == RtcPhase::Finished,
        final(polling)@ == (NegotiationView { phase: final(polling).phase, ..old(counting)@ }),
{
}

/// A round in which all channels are open is the last one, and ends well.
pub proof fn lemma_open_channels_end_the_negotiation<O>(
    counting: &mut RtcNegotiation<O>,
    count: usize,
    action: RtcAction<O>,
)
    requires
        old(counting).phase == RtcPhase::Counting,
        call_ensures(RtcNegotiation::<O>::open_channels, (counting, count), action),
    ensures
        count >= old(counting).channel_count <==> action == RtcAction::<O>::Finish(Ok(())),
        count >= old(counting).channel_count <==> final(counting).phase == RtcPhase::Finished,
{
}

/// What a negotiation waits for while an action is performed.
pub open spec fn awaited<O>(action: RtcAction<O>) -> RtcPhase {
    match action {
        RtcAction::Perform(_) => RtcPhase::Working,
        RtcAction::SendMessage(_) => RtcPhase::Working,
        RtcAction::CountOpenChannels => RtcPhase::Counting,
        RtcAction::PollNotifications => RtcPhase::Polling,
        RtcAction::ReceiveMessages => RtcPhase::Receiving,
        RtcAction::QueryRemoteDescription => RtcPhase::Inspecting,
        RtcAction::Yield => RtcPhase::Yielding,
        RtcAction::Finish(_) => RtcPhase::Finished,
    }
}

/// A negotiation always waits for the outcome of the action that it asked for, and the number of
/// channels that have to open stays what it was when it began.
pub proof fn lemma_action_is_awaited<O: RemoteOperation>(
    channel_count: nat,
    operations: Seq<O>,
    events: Seq<RtcEvent<O>>,
)
    requires
        NegotiationHistory::begun(channel_count, operations).all_possible(events),
    ensures
        ({
            let history = NegotiationHistory::begun(channel_count, operations).after_all(events);
            &&& history.negotiation.phase == awaited(history.action)
            &&& history.negotiation.channel_count == channel_count
        }),
{
    lemma_action_is_awaited_after(NegotiationHistory::begun(channel_count, operations), events);
}

proof fn lemma_action_is_awaited_after<O: RemoteOperation>(
    history: NegotiationHistory<O>,
    events: Seq<RtcEvent<O>>,
)
    requires
        history.all_possible(events),
        history.negotiation.phase == awaited(history.action),
    ensures
        ({
            let last = history.after_all(events);
            &&& last.negotiation.phase == awaited(last.action)
            &&& last.negotiation.channel_count == history.negotiation.channel_count
        }),
    decreases events.len(),
{
    if events.len() > 0 {
        lemma_action_is_awaited_after(history.after(events.first()), events.drop_first());
    }
}

/// A run that ends well has found at least as many open channels as were asked for when it began.
pub proof fn lemma_success_means_open_channels<O: RemoteOperation>(
    channel_count: nat,
    operations: Seq<O>,
    events: Seq<RtcEvent<O>>,
    last: RtcEvent<O>,
)
    requires
        NegotiationHistory::begun(channel_count, operations).all_possible(events),
        NegotiationHistory::begun(channel_count, operations).after_all(events).possible(last),
    ensures
        NegotiationHistory::begun(channel_count, operations).after_all(events).after(last).action
            == RtcAction::<O>::Finish(Ok(())) <==> (last matches RtcEvent::OpenChannels(count)
            && count >= channel_count),
{
    lemma_action_is_awaited(channel_count, operations, events);
}

/// The operation that an action asks for, as a sequence.
pub open spec fn asked<O>(action: RtcAction<O>) -> Seq<O> {
    match action {
        RtcAction::Perform(operation) => seq![operation],
        _ => Seq::empty(),
    }
}

/// How a negotiation goes on with work and messages at hand: no operation and no message is lost,
/// doubled or put in another place. Operations come first, then messages; where neither is left,
/// other tasks get a turn, except the first time, when the open channels are counted at once.
pub open spec fn goes_on<O>(
    before: NegotiationView<O>,
    work: Seq<O>,
    messages: Seq<RtcNegotiationMessage>,
    after: NegotiationView<O>,
    action: RtcAction<O>,
) -> bool {
    &&& asked(action) + after.operations == work
    &&& crate::history::current(after.message) + after.messages == messages
    &&& action is Perform <==> work.len() > 0
    &&& action is QueryRemoteDescription <==> work.len() == 0 && messages.len() > 0
    &&& after.message is Some <==> action is QueryRemoteDescription
    &&& action is Yield <==> work.len() == 0 && messages.len() == 0 && before.established
    &&& action is CountOpenChannels <==> work.len() == 0 && messages.len() == 0
        && !before.established
    &&& after.established <==> before.established || action is CountOpenChannels
    &&& after.channel_count == before.channel_count
    &&& after.phase == awaited(action)
}

/// After a success, the operations that were left come first, then those that it calls for.
pub proof fn lemma_success_goes_on<O: RemoteOperation>(
    history: NegotiationHistory<O>,
    event: RtcEvent<O>,
    more: Seq<O>,
)
    requires
        history.negotiation.phase == RtcPhase::Working,
        history.negotiation.message is None,
        NegotiationHistory::is_success(event),
        more == match event {
            RtcEvent::Succeeded(more) => more,
            _ => Seq::empty(),
        },
    ensures
        goes_on(
            history.negotiation,
            history.negotiation.operations + more,
            history.negotiation.messages,
            history.after(event).negotiation,
            history.after(event).action,
        ),
        history.after(event).negotiation.candidate_buffer == history.negotiation.candidate_buffer,
{
    let before = history.negotiation;
    let after = history.after(event).negotiation;
    let action = history.after(event).action;
    assert(before.operations + Seq::<O>::empty() =~= before.operations);
    assert(asked(action) + after.operations =~= before.operations + more);
    assert(crate::history::current(after.message) + after.messages =~= before.messages);
}

/// What the remote peer has sent is handled next, in order.
pub proof fn lemma_receipt_goes_on<O: RemoteOperation>(
    history: NegotiationHistory<O>,
    messages: Vec<RtcNegotiationMessage>,
)
    requires
        history.negotiation.well_formed(),
        history.negotiation.phase == RtcPhase::Receiving,
    ensures
        ({
            let next = history.after(RtcEvent::Received(Ok(messages)));
            &&& goes_on(
                history.negotiation,
                Seq::empty(),
                messages@,
                next.negotiation,
                next.action,
            )
            &&& next.negotiation.candidate_buffer == history.negotiation.candidate_buffer
        }),
{
    let next = history.after(RtcEvent::Received(Ok(messages)));
    assert(asked(next.action) + next.negotiation.operations =~= Seq::empty());
    assert(crate::history::current(next.negotiation.message) + next.negotiation.messages
        =~= messages@);
}

/// The operations that a message calls for come next, before the messages after it; and the
/// candidates that wait are those that the message left.
pub proof fn lemma_inspection_goes_on<O: RemoteOperation>(
    history: NegotiationHistory<O>,
    known: bool,
    waiting: Seq<RtcIceCandidate>,
    operations: Seq<O>,
)
    requires
        history.negotiation.well_formed(),
        history.negotiation.phase == RtcPhase::Inspecting,
    ensures
        ({
            let next = history.after(RtcEvent::Inspected(known, waiting, Ok(operations)));
            &&& goes_on(
                history.negotiation,
                operations,
                history.negotiation.messages,
                next.negotiation,
                next.action,
            )
            &&& next.negotiation.candidate_buffer == waiting
        }),
{
    let next = history.after(RtcEvent::Inspected(known, waiting, Ok(operations)));
    assert(asked(next.action) + next.negotiation.operations =~= operations);
    assert(crate::history::current(next.negotiation.message) + next.negotiation.messages
        =~= history.negotiation.messages);
}

/// After the other tasks have had their turn, the open channels are counted again; and nothing else
/// has changed.
pub proof fn lemma_turn_ends_with_a_count<O>(
    yielding: &mut RtcNegotiation<O>,
    action: RtcAction<O>,
)
    requires
        call_ensures(RtcNegotiation::<O>::yielded, (yielding,), action),
    ensures
        action is CountOpenChannels,
        final(yielding)@ == (NegotiationView { phase: RtcPhase::Counting, ..old(yielding)@ }),
{
}

/// That an operation, or the sending of a message, was a success.
pub open spec fn success<O>() -> RtcEvent<O> {
    RtcEvent::Performed(Ok(()))
}

/// A number of successes, one after the other.
pub open spec fn successes<O>(n: nat) -> Seq<RtcEvent<O>> {
    Seq::new(n, |i: int| success::<O>())
}

/// While everything succeeds, the operations at hand are asked for in their order.
pub proof fn lemma_operations_follow_each_other<O: RemoteOperation>(
    history: NegotiationHistory<O>,
    k: nat,
)
    requires
        k < history.negotiation.operations.len(),
    ensures
        history.after_all(successes((k + 1) as nat)).action == RtcAction::Perform(
            history.negotiation.operations[k as int],
        ),
    decreases k,
{
    let events = successes::<O>((k + 1) as nat);
    let next = history.after(success());
    assert(events.first() == success::<O>());
    assert(events.drop_first() =~= successes::<O>(k));
    assert(next.action == RtcAction::Perform(history.negotiation.operations.first()));
    if k > 0 {
        lemma_operations_follow_each_other(next, (k - 1) as nat);
    } else {
        assert(next.after_all(successes::<O>(0)) == next);
    }
}

/// While everything succeeds in a connection that is being set up, the open channels are counted
/// after the last operation.
pub proof fn lemma_set_up_ends_with_a_count<O: RemoteOperation>(history: NegotiationHistory<O>)
    requires
        !history.negotiation.established,
        history.negotiation.messages.len() == 0,
    ensures
        history.after_all(
            successes((history.negotiation.operations.len() + 1) as nat),
        ).action is CountOpenChannels,
    decreases history.negotiation.operations.len(),
{
    let left = history.negotiation.operations.len();
    let events = successes::<O>((left + 1) as nat);
    let next = history.after(success());
    assert(events.first() == success::<O>());
    assert(events.drop_first() =~= successes::<O>(left));
    if left > 0 {
        lemma_set_up_ends_with_a_count(next);
    } else {
        assert(next.after_all(successes::<O>(0)) == next);
    }
}

/// A connection is set up by the operations that it begins with, each once and in order, and after
/// the last of them the open channels are counted.
pub proof fn lemma_set_up_in_order<O: RemoteOperation>(
    channel_count: nat,
    operations: Seq<O>,
    k: nat,
)
    requires
        k <= operations.len(),
    ensures
        ({
            let history = NegotiationHistory::begun(channel_count, operations).after_all(
                successes(k),
            );
            &&& k < operations.len() ==> history.action == RtcAction::Perform(
                operations[k as int],
            ) && !history.negotiation.established
            &&& k == operations.len() ==> history.action is CountOpenChannels
                && history.negotiation.established
            &&& history.negotiation.operations == if k < operations.len() {
                operations.skip(k as int + 1)
            } else {
                Seq::empty()
            }
            &&& history.negotiation.message is None
            &&& history.negotiation.messages.len() == 0
            &&& history.negotiation.candidate_buffer.len() == 0
            &&& history.negotiation.channel_count == channel_count
            &&& history.negotiation.phase == awaited(history.action)
        }),
    decreases k,
{
    let begun = NegotiationHistory::begun(channel_count, operations);
    if k == 0 {
        assert(begun.after_all(successes(0)) == begun);
        if operations.len() > 0 {
            assert(operations.drop_first() =~= operations.skip(1));
        }
        assert(begun.negotiation.operations =~= if operations.len() > 0 {
            operations.skip(1)
        } else {
            Seq::empty()
        });
    } else {
        let before = begun.after_all(successes((k - 1) as nat));
        lemma_set_up_in_order(channel_count, operations, (k - 1) as nat);
        lemma_one_more_success(begun, (k - 1) as nat);
        let left = operations.skip(k as int);
        assert(before.negotiation.operations == left);
        if k < operations.len() {
            assert(left.first() == operations[k as int]);
            assert(left.drop_first() =~= operations.skip(k as int + 1));
        } else {
            assert(left =~= Seq::empty());
        }
    }
}

proof fn lemma_one_more_success<O: RemoteOperation>(history: NegotiationHistory<O>, k: nat)
    ensures
        history.after_all(successes((k + 1) as nat)) == history.after_all(successes(k)).after(
            success(),
        ),
    decreases k,
{
    let events = successes::<O>((k + 1) as nat);
    assert(events.first() == success::<O>());
    assert(events.drop_first() =~= successes::<O>(k));
    if k > 0 {
        assert(successes::<O>(k).first() == success::<O>());
        assert(successes::<O>(k).drop_first() =~= successes::<O>((k - 1) as nat));
        lemma_one_more_success(history.after(success()), (k - 1) as nat);
    } else {
        assert(history.after_all(successes(0)) == history);
        assert(history.after(success()).after_all(successes(0)) == history.after(success()));
    }
}

/// What begins is the history of a negotiation with the given channels and operations.
pub proof fn lemma_begin_begins<O: RemoteOperation>(
    channel_count: usize,
    operations: Vec<O>,
    begun: (RtcNegotiation<O>, RtcAction<O>),
)
    requires
        call_ensures(RtcNegotiation::<O>::begin, (channel_count, operations), begun),
    ensures
        ({
            let history = NegotiationHistory::begun(channel_count as nat, operations@);
            &&& begun.0@ == history.negotiation
            &&& begun.1 == history.action
        }),
{
}

/// Which event each report of the program around a negotiation is.
pub proof fn lemma_work_is_reported<O: RemoteOperation>(
    history: NegotiationHistory<O>,
    succeeded: &mut RtcNegotiation<O>,
    more: Vec<O>,
    after_success: RtcAction<O>,
    failed: &mut RtcNegotiation<O>,
    error: RtcPeerConnectionError,
    after_failure: RtcAction<O>,
    performed: &mut RtcNegotiation<O>,
    performance: Result<(), String>,
    after_performance: RtcAction<O>,
    sent: &mut RtcNegotiation<O>,
    sending: Result<(), RtcPeerConnectionError>,
    after_sending: RtcAction<O>,
)
    requires
        history.negotiation == old(succeeded)@,
        call_ensures(RtcNegotiation::<O>::succeeded, (succeeded, more), after_success),
        history.negotiation == old(failed)@,
        call_ensures(RtcNegotiation::<O>::fail, (failed, error), after_failure),
        history.negotiation == old(performed)@,
        call_ensures(RtcNegotiation::<O>::performed, (performed, performance), after_performance),
        history.negotiation == old(sent)@,
        call_ensures(RtcNegotiation::<O>::sent, (sent, sending), after_sending),
    ensures
        (final(succeeded)@, after_success) == history.outcome(RtcEvent::Succeeded(more@)),
        (final(failed)@, after_failure) == history.outcome(RtcEvent::Failed(error)),
        (final(performed)@, after_performance) == history.outcome(
            RtcEvent::Performed(performance),
        ),
        (final(sent)@, after_sending) == history.outcome(RtcEvent::Sent(sending)),
{
}

/// Which event each report of the loop around a negotiation is.
pub proof fn lemma_rounds_are_reported<O: RemoteOperation>(
    history: NegotiationHistory<O>,
    counting: &mut RtcNegotiation<O>,
    count: usize,
    after_count: RtcAction<O>,
    polling: &mut RtcNegotiation<O>,
    notification: Option<RtcNegotiationNotification>,
    after_poll: RtcAction<O>,
    receiving: &mut RtcNegotiation<O>,
    receipt: Result<Vec<RtcNegotiationMessage>, RtcPeerConnectionError>,
    after_receipt: RtcAction<O>,
    inspecting: &mut RtcNegotiation<O>,
    known: bool,
    inspection: Result<Vec<O>, RtcPeerConnectionError>,
    after_inspection: RtcAction<O>,
    yielding: &mut RtcNegotiation<O>,
    after_turn: RtcAction<O>,
)
    requires
        history.negotiation == old(counting)@,
        call_ensures(RtcNegotiation::<O>::open_channels, (counting, count), after_count),
        history.negotiation == old(polling)@,
        call_ensures(RtcNegotiation::<O>::notified, (polling, notification), after_poll),
        history.negotiation == old(receiving)@,
        call_ensures(RtcNegotiation::<O>::received, (receiving, receipt), after_receipt),
        old(inspecting)@ == (NegotiationView {
            message: None,
            candidate_buffer: old(inspecting)@.candidate_buffer,
            ..history.negotiation
        }),
        call_ensures(RtcNegotiation::<O>::inspected, (inspecting, inspection), after_inspection),
        history.negotiation == old(yielding)@,
        call_ensures(RtcNegotiation::<O>::yielded, (yielding,), after_turn),
    ensures
        (final(counting)@, after_count) == history.outcome(RtcEvent::OpenChannels(count as nat)),
        (final(polling)@, after_poll) == history.outcome(RtcEvent::Notified(notification)),
        (final(receiving)@, after_receipt) == history.outcome(RtcEvent::Received(receipt)),
        (final(inspecting)@, after_inspection) == history.outcome(
            RtcEvent::Inspected(
                known,
                old(inspecting)@.candidate_buffer,
                match inspection {
                    Ok(operations) => Ok(operations@),
                    Err(error) => Err(error),
                },
            ),
        ),
        (final(yielding)@, after_turn) == history.outcome(RtcEvent::Yielded),
{
}

/// How many events of a list are of a kind.
pub open spec fn tally<O>(events: Seq<RtcEvent<O>>, kind: spec_fn(RtcEvent<O>) -> bool) -> nat
    decreases events.len(),
{
    if events.len() == 0 {
        0
    } else {
        (if kind(events.first()) {
            1nat
        } else {
            0nat
        }) + tally(events.drop_first(), kind)
    }
}

/// The open channels were counted.
pub open spec fn counts<O>() -> spec_fn(RtcEvent<O>) -> bool {
    |event: RtcEvent<O>| event is OpenChannels
}

/// The notifications were polled.
pub open spec fn polls<O>() -> spec_fn(RtcEvent<O>) -> bool {
    |event: RtcEvent<O>| event is Notified
}

/// A notification was taken.
pub open spec fn takings<O>() -> spec_fn(RtcEvent<O>) -> bool {
    |event: RtcEvent<O>| event matches RtcEvent::Notified(notification) && notification is Some
}

/// The messages of the remote peer were received.
pub open spec fn receipts<O>() -> spec_fn(RtcEvent<O>) -> bool {
    |event: RtcEvent<O>| event is Received
}

/// The other tasks had a turn.
pub open spec fn turns<O>() -> spec_fn(RtcEvent<O>) -> bool {
    |event: RtcEvent<O>| event is Yielded
}

/// One where something is the case, and zero where it is not.
pub open spec fn unit(is_so: bool) -> nat {
    if is_so {
        1
    } else {
        0
    }
}

/// As long as a negotiation goes on, every count of the open channels is followed by a poll of the
/// notifications; every poll either takes a notification or is followed by a receipt of messages;
/// and every round but the first begins after a turn of the other tasks.
pub proof fn lemma_every_round_makes_progress<O: RemoteOperation>(
    channel_count: nat,
    operations: Seq<O>,
    events: Seq<RtcEvent<O>>,
)
    requires
        NegotiationHistory::begun(channel_count, operations).all_possible(events),
        NegotiationHistory::begun(channel_count, operations).after_all(
            events,
        ).negotiation.phase != RtcPhase::Finished,
    ensures
        ({
            let phase = NegotiationHistory::begun(channel_count, operations).after_all(
                events,
            ).negotiation.phase;
            &&& tally(events, counts()) == tally(events, polls()) + unit(
                phase == RtcPhase::Polling,
            )
            &&& tally(events, polls()) == tally(events, takings()) + tally(events, receipts())
                + unit(phase == RtcPhase::Receiving)
            &&& tally(events, counts()) <= tally(events, turns()) + 1
        }),
{
    let begun = NegotiationHistory::begun(channel_count, operations);
    lemma_tally(begun, events);
}

/// Nothing can happen in a negotiation that has ended.
pub proof fn lemma_nothing_follows_the_end<O: RemoteOperation>(
    history: NegotiationHistory<O>,
    events: Seq<RtcEvent<O>>,
)
    requires
        history.negotiation.phase == RtcPhase::Finished,
        history.all_possible(events),
    ensures
        events.len() == 0,
        history.after_all(events) == history,
{
}

proof fn lemma_tally<O: RemoteOperation>(
    history: NegotiationHistory<O>,
    events: Seq<RtcEvent<O>>,
)
    requires
        history.all_possible(events),
        history.after_all(events).negotiation.phase != RtcPhase::Finished,
    ensures
        ({
            let last = history.after_all(events);
            let before = history.negotiation.phase;
            let phase = last.negotiation.phase;
            &&& unit(before == RtcPhase::Polling) + tally(events, counts()) == tally(
                events,
                polls(),
            ) + unit(phase == RtcPhase::Polling)
            &&& unit(before == RtcPhase::Receiving) + tally(events, polls()) == tally(
                events,
                takings(),
            ) + tally(events, receipts()) + unit(phase == RtcPhase::Receiving)
            &&& tally(events, counts()) + unit(phase == RtcPhase::Counting) <= tally(
                events,
                turns(),
            ) + unit(before == RtcPhase::Counting) + unit(!history.negotiation.established)
            &&& history.negotiation.established ==> last.negotiation.established
        }),
    decreases events.len(),
{
    if events.len() > 0 {
        let event = events.first();
        let next = history.after(event);
        if next.negotiation.phase == RtcPhase::Finished {
            lemma_nothing_follows_the_end(next, events.drop_first());
        }
        lemma_tally(next, events.drop_first());
    }
}

/// The first error ends a negotiation. An operation that fails while the connection is being set up
/// is reported as a failure of creation, and a later one as a failure of negotiation.
pub proof fn lemma_failed_operation_is_reported<O>(
    working: &mut RtcNegotiation<O>,
    reason: String,
    action: RtcAction<O>,
)
    requires
        call_ensures(RtcNegotiation::<O>::performed, (working, Err::<(), String>(reason)), action),
    ensures
        !old(working).established ==> action == RtcAction::<O>::Finish(
            Err(RtcPeerConnectionError::Creation(reason)),
        ),
        old(working).established ==> action == RtcAction::<O>::Finish(
            Err(RtcPeerConnectionError::Negotiation(reason)),
        ),
        final(working)@ == (NegotiationView { phase: RtcPhase::Finished, ..old(working)@ }),
{
}

/// A number of a channel is its place, and comes again 65536 places later.
pub proof fn lemma_channel_number(index: usize, id: u16)
    requires
        call_ensures(crate::negotiation::channel_id, (index,), id),
    ensures
        index < 0x1_0000 ==> id == index,
        (index - id) % 0x1_0000 == 0,
{
}

/// A queue holds what the list held, in the same order.
pub proof fn lemma_queue_keeps_order<T>(
    items: Vec<T>,
    queue: std::collections::VecDeque<T>,
)
    requires
        call_ensures(crate::negotiation::queue::<T>, (items,), queue),
    ensures
        queue@.len() == items@.len(),
        forall|i: int| 0 <= i < items@.len() ==> #[trigger] queue@[i] == items@[i],
{
}

/// A negotiation is found well-formed exactly while a message is at hand just when the connection is
/// asked about its remote description, with no operation left; nothing is left at all between two
/// pieces of work in the loop; and nothing has been received before the loop.
pub proof fn lemma_well_formed<O>(negotiation: RtcNegotiation<O>, well_formed: bool)
    requires
        call_ensures(RtcNegotiation::<O>::is_well_formed, (&negotiation,), well_formed),
    ensures
        well_formed <==> {
            &&& negotiation.phase is Inspecting <==> negotiation.message is Some
            &&& negotiation.phase is Inspecting ==> negotiation.operations@.len() == 0
            &&& negotiation.phase is Counting || negotiation.phase is Polling
                || negotiation.phase is Receiving || negotiation.phase is Yielding ==> {
                &&& negotiation.established
                &&& negotiation.messages@.len() == 0
                &&& negotiation.operations@.len() == 0
            }
            &&& !negotiation.established ==> {
                &&& negotiation.message is None
                &&& negotiation.messages@.len() == 0
                &&& negotiation.candidate_buffer@.len() == 0
            }
        },
{
}

} // verus!
