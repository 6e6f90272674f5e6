//! What holds throughout the life of a channel, whatever happens on it.

use vstd::prelude::*;

use crate::channel::{Arrival, DataChannelView, HandlerStateView, RtcDataChannelReadyState};
use crate::error::DataChannelErrorView;

verus! {

/// Something that happens on a channel.
pub enum ChannelEvent {
    /// The channel opened.
    Opened,
    /// A message arrived.
    Arrived(Seq<u8>),
    /// The channel ended, for a reason.
    Ended(Seq<char>),
    /// The owner tried to read.
    Read,
    /// The owner tried to send, of which this is what the transport said.
    Sent(Result<(), DataChannelErrorView>),
}

/// A channel together with what has happened on it so far.
pub struct ChannelHistory {
    /// The channel as its owner holds it.
    pub channel: DataChannelView,
    /// The state of the channel.
    pub state: HandlerStateView,
    /// Whether the channel has opened.
    pub opened: bool,
    /// The reason for which the channel ended first, if it has ended.
    pub ended: Option<Seq<char>>,
    /// The messages that arrived before the channel ended.
    pub arrived: Seq<Seq<u8>>,
    /// The messages that the owner has read.
    pub delivered: Seq<Seq<u8>>,
}

/// What has arrived on a channel: messages, and after them the end of the channel.
pub open spec fn arrivals(messages: Seq<Seq<u8>>, end: Seq<char>) -> Seq<Arrival> {
    messages.map_values(|message: Seq<u8>| Ok::<Seq<u8>, DataChannelErrorView>(message)).push(
        Err(DataChannelErrorView::Receive(end)),
    )
}

impl ChannelHistory {
    /// The history of a new channel.
    pub open spec fn begun(label: Seq<char>, id: u16) -> Self {
        ChannelHistory {
            channel: DataChannelView { label, id, previous_result: Ok(()) },
            state: HandlerStateView::initial(),
            opened: false,
            ended: None,
            arrived: Seq::empty(),
            delivered: Seq::empty(),
        }
    }

    /// The history after an event.
    pub open spec fn after(self, event: ChannelEvent) -> Self {
        match event {
            ChannelEvent::Opened => ChannelHistory {
                state: self.state.opened(),
                opened: true,
                ..self
            },
            ChannelEvent::Arrived(message) => ChannelHistory {
                state: self.state.message(message),
                arrived: if self.ended is None {
                    self.arrived.push(message)
                } else {
                    self.arrived
                },
                ..self
            },
            ChannelEvent::Ended(reason) => ChannelHistory {
                state: self.state.closed(reason),
                ended: if self.ended is None {
                    Some(reason)
                } else {
                    self.ended
                },
                ..self
            },
            ChannelEvent::Read => {
                let (channel, state, result) = self.channel.receive(self.state);
                ChannelHistory {
                    channel,
                    state,
                    delivered: match result {
                        Ok(Some(message)) => self.delivered.push(message),
                        _ => self.delivered,
                    },
                    ..self
                }
            },
            ChannelEvent::Sent(outcome) => ChannelHistory {
                channel: self.channel.send(outcome).0,
                ..self
            },
        }
    }

    /// The history after a list of events.
    pub open spec fn after_all(self, events: Seq<ChannelEvent>) -> Self
        decreases events.len(),
    {
        if events.len() == 0 {
            self
        } else {
            self.after(events.first()).after_all(events.drop_first())
        }
    }

    /// The state that the owner of the channel sees is that of the last thing that happened: the
    /// channel ended or an exchange failed; or it opened; or nothing did.
    pub open spec fn shows_its_state(self) -> bool {
        self.channel.ready_state(self.state) == if self.ended is Some
            || self.channel.previous_result is Err {
            RtcDataChannelReadyState::Closed
        } else if self.opened {
            RtcDataChannelReadyState::Open
        } else {
            RtcDataChannelReadyState::Connecting
        }
    }

    /// The owner reads the messages that arrived before the end of the channel, each once and in
    /// the order of arrival. The reason for which the channel ended comes after all of them.
    pub open spec fn delivers_in_order(self) -> bool {
        &&& self.delivered.is_prefix_of(self.arrived)
        &&& self.channel.previous_result matches Err(DataChannelErrorView::Receive(reason))
            ==> self.ended == Some(reason) && self.delivered == self.arrived
    }

    /// While no exchange has failed, the next attempt to read gives the oldest message that has not
    /// been read; where there is none, it tells the end of the channel, or that nothing is there.
    pub open spec fn delivers_next(self) -> bool {
        self.channel.previous_result is Ok ==> self.channel.receive(self.state).2
            == if self.delivered.len() < self.arrived.len() {
            Ok(Some(self.arrived[self.delivered.len() as int]))
        } else {
            match self.ended {
                Some(reason) => Err(DataChannelErrorView::Receive(reason)),
                None => Ok(None),
            }
        }
    }

    /// What holds after every event.
    spec fn sound(self) -> bool {
        let queue = self.state.arrivals;
        &&& self.state.ready_state == if self.ended is Some {
            RtcDataChannelReadyState::Closed
        } else if self.opened {
            RtcDataChannelReadyState::Open
        } else {
            RtcDataChannelReadyState::Connecting
        }
        &&& self.delivers_in_order()
        &&& self.channel.previous_result is Ok ==> {
            let waiting = self.arrived.skip(self.delivered.len() as int);
            let messages = waiting.map_values(
                |message: Seq<u8>| Ok::<Seq<u8>, DataChannelErrorView>(message),
            );
            match self.ended {
                Some(reason) => arrivals(waiting, reason).is_prefix_of(queue),
                None => queue == messages,
            }
        }
    }

    proof fn lemma_after(self, event: ChannelEvent)
        requires
            self.sound(),
        ensures
            self.after(event).sound(),
    {
        let next = self.after(event);
        let n = self.delivered.len() as int;
        let waiting = self.arrived.skip(n);
        let next_waiting = next.arrived.skip(next.delivered.len() as int);
        let queue = self.state.arrivals;
        match event {
            ChannelEvent::Opened => {},
            ChannelEvent::Arrived(message) => {
                if self.ended is None {
                    assert(next_waiting =~= waiting.push(message));
                    if self.channel.previous_result is Ok {
                        assert(next.state.arrivals =~= next_waiting.map_values(
                            |message: Seq<u8>| Ok::<Seq<u8>, DataChannelErrorView>(message),
                        ));
                    }
                }
            },
            ChannelEvent::Ended(reason) => {
                if self.ended is None && self.channel.previous_result is Ok {
                    assert(next.state.arrivals =~= arrivals(waiting, reason));
                }
            },
            ChannelEvent::Read => {
                if self.channel.previous_result is Ok && queue.len() > 0 {
                    if waiting.len() > 0 {
                        assert(queue.first() == Ok::<Seq<u8>, DataChannelErrorView>(waiting[0])) by {
                            if self.ended is Some {
                                assert(arrivals(waiting, self.ended->0)[0] == queue[0]);
                            }
                        }
                        assert(waiting[0] == self.arrived[n]);
                        assert(next_waiting =~= waiting.drop_first());
                        match self.ended {
                            Some(reason) => {
                                assert(arrivals(next_waiting, reason) =~= arrivals(
                                    waiting,
                                    reason,
                                ).drop_first());
                            },
                            None => {
                                assert(next.state.arrivals =~= next_waiting.map_values(
                                    |message: Seq<u8>| Ok::<Seq<u8>, DataChannelErrorView>(message),
                                ));
                            },
                        }
                    } else {
                        assert(arrivals(waiting, self.ended->0)[0] == queue[0]);
                        assert(self.delivered =~= self.arrived);
                    }
                }
            },
            ChannelEvent::Sent(_) => {},
        }
    }

    proof fn lemma_after_all(self, events: Seq<ChannelEvent>)
        requires
            self.sound(),
        ensures
            self.after_all(events).sound(),
        decreases events.len(),
    {
        if events.len() > 0 {
            self.lemma_after(events.first());
            self.after(events.first()).lemma_after_all(events.drop_first());
        }
    }
}

/// Whatever happens on a channel, it shows its state; its owner reads all messages that arrived
/// before the end of the channel, each once and in the order of arrival; and the end is told after
/// the last of them.
pub proof fn lemma_channel_delivers(label: Seq<char>, id: u16, events: Seq<ChannelEvent>)
    ensures
        ({
            let history = ChannelHistory::begun(label, id).after_all(events);
            &&& history.shows_its_state()
            &&& history.delivers_in_order()
            &&& history.delivers_next()
        }),
{
    let begun = ChannelHistory::begun(label, id);
    assert(begun.state.arrivals =~= begun.arrived.skip(0).map_values(
        |message: Seq<u8>| Ok::<Seq<u8>, DataChannelErrorView>(message),
    ));
    begun.lemma_after_all(events);
    let history = begun.after_all(events);
    let waiting = history.arrived.skip(history.delivered.len() as int);
    if history.channel.previous_result is Ok {
        if let Some(reason) = history.ended {
            assert(arrivals(waiting, reason)[0] == history.state.arrivals[0]);
        }
    }
}

/// Whether an event of a list is a cause for the channel to fail: the transport refused a message,
/// or the owner tried to read after having read everything that arrived before the end.
pub open spec fn is_cause(label: Seq<char>, id: u16, events: Seq<ChannelEvent>, i: int) -> bool {
    let before = ChannelHistory::begun(label, id).after_all(events.take(i));
    match events[i] {
        ChannelEvent::Sent(outcome) => outcome is Err,
        ChannelEvent::Read => before.ended is Some && before.delivered.len()
            == before.arrived.len(),
        _ => false,
    }
}

proof fn lemma_after_all_push(
    history: ChannelHistory,
    events: Seq<ChannelEvent>,
    event: ChannelEvent,
)
    ensures
        history.after_all(events.push(event)) == history.after_all(events).after(event),
    decreases events.len(),
{
    if events.len() == 0 {
        assert(events.push(event).drop_first() =~= Seq::empty());
        assert(history.after(event).after_all(Seq::empty()) == history.after(event));
        assert(events.push(event).first() == event);
    } else {
        assert(events.push(event).drop_first() =~= events.drop_first().push(event));
        lemma_after_all_push(history.after(events.first()), events.drop_first(), event);
    }
}

/// A channel fails only for a cause, and always when there is one: after any list of events it has
/// failed exactly when the transport refused a message, or the end of the channel was read.
pub proof fn lemma_failure_has_a_cause(label: Seq<char>, id: u16, events: Seq<ChannelEvent>)
    ensures
        ChannelHistory::begun(label, id).after_all(events).channel.previous_result is Err <==> (
        exists|i: int|
            0 <= i < events.len() && #[trigger] is_cause(label, id, events, i)),
    decreases events.len(),
{
    let begun = ChannelHistory::begun(label, id);
    if events.len() > 0 {
        let earlier = events.drop_last();
        let last = events.len() - 1;
        let before = begun.after_all(earlier);
        lemma_failure_has_a_cause(label, id, earlier);
        lemma_channel_delivers(label, id, earlier);
        assert(events =~= earlier.push(events.last()));
        lemma_after_all_push(begun, earlier, events.last());
        assert(events.take(last) =~= earlier);
        assert forall|i: int| 0 <= i < last implies is_cause(label, id, events, i) == is_cause(
            label,
            id,
            earlier,
            i,
        ) by {
            assert(events.take(i) =~= earlier.take(i));
        }
        if before.channel.previous_result is Err {
            let i = choose|i: int|
                0 <= i < earlier.len() && #[trigger] is_cause(label, id, earlier, i);
            assert(is_cause(label, id, events, i));
        } else {
            assert(forall|i: int|
                0 <= i < earlier.len() ==> !#[trigger] is_cause(label, id, earlier, i));
            if begun.after_all(events).channel.previous_result is Err {
                assert(is_cause(label, id, events, last));
            }
        }
    }
}

/// Whatever happens on a channel, its names stay the same.
pub proof fn lemma_names_never_change(label: Seq<char>, id: u16, events: Seq<ChannelEvent>)
    ensures
        ChannelHistory::begun(label, id).after_all(events).channel.label == label,
        ChannelHistory::begun(label, id).after_all(events).channel.id == id,
    decreases events.len(),
{
    if events.len() > 0 {
        lemma_names_never_change(label, id, events.drop_last());
        assert(events =~= events.drop_last().push(events.last()));
        lemma_after_all_push(
            ChannelHistory::begun(label, id),
            events.drop_last(),
            events.last(),
        );
    }
}

/// An attempt to send tells the owner what the transport said: success where it accepted the
/// message, which leaves the channel as it was, and a failure of sending otherwise, which shows the
/// refusal and stays with the channel.
pub proof fn lemma_send_tells_the_outcome(
    history: ChannelHistory,
    outcome: Result<(), DataChannelErrorView>,
)
    requires
        history.channel.previous_result is Ok,
    ensures
        outcome is Ok ==> history.after(ChannelEvent::Sent(outcome)) == history
            && history.channel.send(outcome).1 is Ok,
        outcome matches Err(error) ==> {
            let failure = history.channel.send(outcome).1;
            &&& failure == Err::<(), _>(DataChannelErrorView::Send(error.display()))
            &&& history.after(ChannelEvent::Sent(outcome)).channel.previous_result == failure
            &&& history.after(ChannelEvent::Sent(outcome)).state == history.state
        },
{
}

} // verus!
