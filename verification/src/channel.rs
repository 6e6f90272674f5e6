//! Open channels: how messages and errors travel through them.

use vstd::prelude::*;
use vstd::slice::slice_to_vec;
use vstd::string::*;
use std::collections::VecDeque;

use crate::configuration::RtcDataChannelConfiguration;
use crate::error::{DataChannelErrorView, RtcDataChannelError};
use crate::negotiation::channel_id;
use crate::poll::RtcPoll;

verus! {

/// Describes the current connection state of a channel.
#[derive(Copy, Clone, Debug, PartialEq, Eq, Structural)]
pub enum RtcDataChannelReadyState {
    /// The channel's connection is being established.
    Connecting,
    /// The channel is open for sending and receiving data.
    Open,
    /// The procedure for closing the channel has begun.
    Closing,
    /// The channel is closed, and will not receive any more data.
    Closed,
}

impl RtcDataChannelReadyState {
    /// The number that stands for the state.
    pub open spec fn number(self) -> u8 {
        match self {
            RtcDataChannelReadyState::Connecting => 0,
            RtcDataChannelReadyState::Open => 1,
            RtcDataChannelReadyState::Closing => 2,
            RtcDataChannelReadyState::Closed => 3,
        }
    }

    /// The state that a number stands for; numbers above the last one stand for none.
    pub open spec fn of_number(value: u8) -> Option<RtcDataChannelReadyState> {
        if value == 0 {
            Some(RtcDataChannelReadyState::Connecting)
        } else if value == 1 {
            Some(RtcDataChannelReadyState::Open)
        } else if value == 2 {
            Some(RtcDataChannelReadyState::Closing)
        } else if value == 3 {
            Some(RtcDataChannelReadyState::Closed)
        } else {
            None
        }
    }

    /// Writes the state as a number.
    pub fn as_u8(self) -> (number: u8)
        ensures
            number == self.number(),
    {
        match self {
            RtcDataChannelReadyState::Connecting => 0,
            RtcDataChannelReadyState::Open => 1,
            RtcDataChannelReadyState::Closing => 2,
            RtcDataChannelReadyState::Closed => 3,
        }
    }
}

impl TryFrom<u8> for RtcDataChannelReadyState {
    type Error = &'static str;

    fn try_from(value: u8) -> (state: Result<Self, Self::Error>) {
        match value {
            0 => Ok(RtcDataChannelReadyState::Connecting),
            1 => Ok(RtcDataChannelReadyState::Open),
            2 => Ok(RtcDataChannelReadyState::Closing),
            3 => Ok(RtcDataChannelReadyState::Closed),
            _ => Err("Value was out-of-range"),
        }
    }
}

impl vstd::std_specs::convert::TryFromSpecImpl<u8> for RtcDataChannelReadyState {
    open spec fn obeys_try_from_spec() -> bool {
        true
    }

    /// The state that a number stands for, or an error where it stands for none.
    open spec fn try_from_spec(value: u8) -> Result<Self, Self::Error> {
        match RtcDataChannelReadyState::of_number(value) {
            Some(state) => Ok(state),
            None => Err("Value was out-of-range"),
        }
    }
}

/// `Vec::into_boxed_slice` keeps the bytes.
#[verifier::external_body]
fn into_boxed_slice(bytes: Vec<u8>) -> (boxed: Box<[u8]>)
    ensures
        boxed@ == bytes@,
{
    bytes.into_boxed_slice()
}

/// Something that has arrived on a channel: a message, or the error that ends it.
pub type Arrival = Result<Seq<u8>, DataChannelErrorView>;

/// What has arrived, seen as a value.
pub open spec fn arrival(item: Result<Box<[u8]>, RtcDataChannelError>) -> Arrival {
    match item {
        Ok(message) => Ok(message@),
        Err(error) => Err(error@),
    }
}

/// Stores what the events of a channel leave for its owner.
#[derive(Debug)]
pub struct RtcDataChannelHandlerState {
    ready_state: RtcDataChannelReadyState,
    receiver: VecDeque<Result<Box<[u8]>, RtcDataChannelError>>,
}

/// The state of a channel and what has arrived on it, the oldest first.
#[verifier::ext_equal]
pub struct HandlerStateView {
    pub ready_state: RtcDataChannelReadyState,
    pub arrivals: Seq<Arrival>,
}

impl View for RtcDataChannelHandlerState {
    type V = HandlerStateView;

    closed spec fn view(&self) -> HandlerStateView {
        HandlerStateView {
            ready_state: self.ready_state,
            arrivals: self.receiver@.map_values(
                |item: Result<Box<[u8]>, RtcDataChannelError>| arrival(item),
            ),
        }
    }
}

impl HandlerStateView {
    /// A channel that is not open yet.
    pub open spec fn initial() -> Self {
        HandlerStateView {
            ready_state: RtcDataChannelReadyState::Connecting,
            arrivals: Seq::empty(),
        }
    }

    /// What follows the opening of the channel.
    pub open spec fn opened(self) -> Self {
        HandlerStateView {
            ready_state: if self.ready_state == RtcDataChannelReadyState::Connecting {
                RtcDataChannelReadyState::Open
            } else {
                self.ready_state
            },
            ..self
        }
    }

    /// What follows the arrival of a message.
    pub open spec fn message(self, message: Seq<u8>) -> Self {
        HandlerStateView { arrivals: self.arrivals.push(Ok(message)), ..self }
    }

    /// What follows the end of the channel.
    pub open spec fn closed(self, reason: Seq<char>) -> Self {
        HandlerStateView {
            ready_state: RtcDataChannelReadyState::Closed,
            arrivals: self.arrivals.push(Err(DataChannelErrorView::Receive(reason))),
        }
    }
}

impl RtcDataChannelHandlerState {
    /// Makes the state of a channel that is not open yet.
    pub fn new() -> (state: Self)
        ensures
            state@ == HandlerStateView::initial(),
    {
        let state = RtcDataChannelHandlerState {
            ready_state: RtcDataChannelReadyState::Connecting,
            receiver: VecDeque::new(),
        };
        assert(state@.arrivals =~= Seq::empty());
        state
    }

    /// Determines the channel's current connection state.
    pub fn ready_state(&self) -> (state: RtcDataChannelReadyState)
        ensures
            state == self@.ready_state,
    {
        self.ready_state
    }

    /// Leaves an item for the owner of the channel.
    fn push(&mut self, item: Result<Box<[u8]>, RtcDataChannelError>)
        ensures
            final(self)@ == (HandlerStateView {
                arrivals: old(self)@.arrivals.push(arrival(item)),
                ..old(self)@
            }),
    {
        self.receiver.push_back(item);
        assert(self@.arrivals =~= old(self)@.arrivals.push(arrival(item)));
    }

    /// Takes the oldest item, if there is one.
    fn try_recv(&mut self) -> (item: Option<Result<Box<[u8]>, RtcDataChannelError>>)
        ensures
            match item {
                Some(item) => {
                    &&& old(self)@.arrivals.len() > 0
                    &&& arrival(item) == old(self)@.arrivals.first()
                    &&& final(self)@ == (HandlerStateView {
                        arrivals: old(self)@.arrivals.drop_first(),
                        ..old(self)@
                    })
                },
                None => old(self)@.arrivals.len() == 0 && final(self)@ == old(self)@,
            },
    {
        let item = self.receiver.pop_front();
        proof {
            if item is Some {
                assert(self@.arrivals =~= old(self)@.arrivals.drop_first());
            }
        }
        item
    }

    /// Notices that the channel has opened.
    pub fn on_open(&mut self)
        ensures
            final(self)@ == old(self)@.opened(),
    {
        if self.ready_state == RtcDataChannelReadyState::Connecting {
            self.ready_state = RtcDataChannelReadyState::Open;
        }
    }

    /// Notices a message, and tells that a waiting task should be woken.
    pub fn on_message(&mut self, message: &[u8]) -> (wake: bool)
        ensures
            final(self)@ == old(self)@.message(message@),
            wake,
    {
        self.push(Ok(into_boxed_slice(slice_to_vec(message))));
        true
    }

    /// Notices the end of the channel, for a reason.
    fn close(&mut self, reason: String)
        ensures
            final(self)@ == old(self)@.closed(reason@),
    {
        self.push(Err(RtcDataChannelError::Receive(reason)));
        self.ready_state = RtcDataChannelReadyState::Closed;
    }

    /// Notices on a native platform that the channel was closed, and tells whether a waiting task
    /// should be woken.
    pub fn on_closed(&mut self) -> (wake: bool)
        ensures
            final(self)@ == old(self)@.closed("The channel was closed."@),
            !wake,
    {
        self.close("The channel was closed.".to_string());
        false
    }

    /// Notices on a native platform that the channel failed, and tells whether a waiting task
    /// should be woken.
    pub fn on_error(&mut self, error: &str) -> (wake: bool)
        ensures
            final(self)@ == old(self)@.closed("The channel encountered an error: "@ + error@),
            !wake,
    {
        self.close("The channel encountered an error: ".to_string().concat(error));
        false
    }

    /// Notices in a browser that the channel was closed or that it failed, and tells that a waiting
    /// task should be woken.
    pub fn on_close_event(&mut self, event: String) -> (wake: bool)
        ensures
            final(self)@ == old(self)@.closed(event@),
            wake,
    {
        self.close(event);
        true
    }

    /// Notices in a browser that something arrived on the channel: the bytes of a message, or
    /// something else, of which this is the text. Tells that a waiting task should be woken.
    pub fn on_message_event(&mut self, data: Result<Vec<u8>, String>) -> (wake: bool)
        ensures
            final(self)@ == match data {
                Ok(message) => old(self)@.message(message@),
                Err(text) => old(self)@.closed(text@),
            },
            wake,
    {
        match data {
            Ok(message) => {
                self.push(Ok(into_boxed_slice(message)));
                true
            },
            Err(text) => self.on_close_event(text),
        }
    }
}

/// A channel across which messages may be exchanged with a remote peer.
#[derive(Debug)]
pub struct RtcDataChannel {
    label: String,
    id: u16,
    previous_result: Result<(), RtcDataChannelError>,
}

/// A channel: its names, and the error that ended it, if any.
#[verifier::ext_equal]
pub struct DataChannelView {
    pub label: Seq<char>,
    pub id: u16,
    pub previous_result: Result<(), DataChannelErrorView>,
}

/// The outcome of an exchange, seen as a value.
pub open spec fn result_view(result: Result<(), RtcDataChannelError>) -> Result<
    (),
    DataChannelErrorView,
> {
    match result {
        Ok(_) => Ok(()),
        Err(error) => Err(error@),
    }
}

/// The outcome of reading, seen as a value.
pub open spec fn received_view(result: Result<Option<Box<[u8]>>, RtcDataChannelError>) -> Result<
    Option<Seq<u8>>,
    DataChannelErrorView,
> {
    match result {
        Ok(Some(message)) => Ok(Some(message@)),
        Ok(None) => Ok(None),
        Err(error) => Err(error@),
    }
}

impl View for RtcDataChannel {
    type V = DataChannelView;

    closed spec fn view(&self) -> DataChannelView {
        DataChannelView {
            label: self.label@,
            id: self.id,
            previous_result: result_view(self.previous_result),
        }
    }
}

impl DataChannelView {
    /// The connection state that the owner of the channel sees.
    pub open spec fn ready_state(self, state: HandlerStateView) -> RtcDataChannelReadyState {
        if self.previous_result is Ok {
            state.ready_state
        } else {
            RtcDataChannelReadyState::Closed
        }
    }

    /// What follows an attempt to send of which `outcome` is what the transport said, and what the
    /// owner of the channel is told. A failure ends the channel.
    pub open spec fn send(self, outcome: Result<(), DataChannelErrorView>) -> (
        Self,
        Result<(), DataChannelErrorView>,
    ) {
        match (self.previous_result, outcome) {
            (Err(error), _) => (self, Err(error)),
            (Ok(_), Ok(_)) => (self, Ok(())),
            (Ok(_), Err(error)) => {
                let failure = DataChannelErrorView::Send(error.display());
                (DataChannelView { previous_result: Err(failure), ..self }, Err(failure))
            },
        }
    }

    /// What follows an attempt to read, and what the owner of the channel is told: the oldest
    /// arrival, if there is one. An error ends the channel.
    pub open spec fn receive(self, state: HandlerStateView) -> (
        Self,
        HandlerStateView,
        Result<Option<Seq<u8>>, DataChannelErrorView>,
    ) {
        match self.previous_result {
            Err(error) => (self, state, Err(error)),
            Ok(_) => if state.arrivals.len() == 0 {
                (self, state, Ok(None))
            } else {
                let rest = HandlerStateView { arrivals: state.arrivals.drop_first(), ..state };
                match state.arrivals.first() {
                    Ok(message) => (self, rest, Ok(Some(message))),
                    Err(error) => (
                        DataChannelView { previous_result: Err(error), ..self },
                        rest,
                        Err(error),
                    ),
                }
            },
        }
    }
}

impl RtcDataChannel {
    /// Creates a new channel with the provided identifiers.
    pub fn new(label: String, id: u16) -> (channel: Self)
        ensures
            channel@ == (DataChannelView { label: label@, id, previous_result: Ok(()) }),
    {
        RtcDataChannel { label, id, previous_result: Ok(()) }
    }

    /// The unique identifier of this channel.
    pub fn id(&self) -> (id: u16)
        ensures
            id == self@.id,
    {
        self.id
    }

    /// The human-readable label of this channel.
    pub fn label(&self) -> (label: &str)
        ensures
            label@ == self@.label,
    {
        self.label.as_str()
    }

    /// The current connection state of the channel.
    pub fn ready_state(&self, state: &RtcDataChannelHandlerState) -> (ready_state:
        RtcDataChannelReadyState)
        ensures
            ready_state == self@.ready_state(state@),
    {
        if self.previous_result.is_ok() {
            state.ready_state()
        } else {
            RtcDataChannelReadyState::Closed
        }
    }

    /// Sends the provided message to the remote peer, through the transport. A channel that has
    /// ended does not use its transport any more.
    pub fn send<F: FnOnce(&[u8]) -> Result<(), RtcDataChannelError>>(
        &mut self,
        message: &[u8],
        transport: F,
    ) -> (result: Result<(), RtcDataChannelError>)
        requires
            old(self)@.previous_result is Ok ==> call_requires(transport, (message,)),
        ensures
            match old(self)@.previous_result {
                Err(error) => final(self)@ == old(self)@ && result_view(result) == Err::<(), _>(
                    error,
                ),
                Ok(_) => exists|outcome: Result<(), RtcDataChannelError>|
                    #![trigger call_ensures(transport, (message,), outcome)]
                    call_ensures(transport, (message,), outcome) && (
                        final(self)@,
                        result_view(result),
                    ) == old(self)@.send(result_view(outcome)),
            },
    {
        if let Err(error) = &self.previous_result {
            return Err(error.clone());
        }
        match transport(message) {
            Ok(_) => Ok(()),
            Err(error) => {
                let failure = RtcDataChannelError::Send(error.to_string());
                self.previous_result = Err(failure.clone());
                Err(failure)
            },
        }
    }

    /// Attempts to read the next message from the remote peer,
    /// returning none if no new message has yet been received.
    pub fn receive(&mut self, state: &mut RtcDataChannelHandlerState) -> (result: Result<
        Option<Box<[u8]>>,
        RtcDataChannelError,
    >)
        ensures
            (final(self)@, final(state)@, received_view(result)) == old(self)@.receive(old(state)@),
    {
        if let Err(error) = &self.previous_result {
            return Err(error.clone());
        }
        match state.try_recv() {
            Some(Ok(message)) => Ok(Some(message)),
            Some(Err(error)) => {
                self.previous_result = Err(error.clone());
                Err(error)
            },
            None => Ok(None),
        }
    }

    /// Polls for the next message from the remote peer. While that is pending, the task has to be
    /// woken when a message arrives.
    pub fn poll_receive(&mut self, state: &mut RtcDataChannelHandlerState) -> (poll: RtcPoll<
        Result<Box<[u8]>, RtcDataChannelError>,
    >)
        ensures
            ({
                let (channel, rest, result) = old(self)@.receive(old(state)@);
                &&& final(self)@ == channel
                &&& final(state)@ == rest
                &&& match result {
                    Ok(Some(message)) => poll matches RtcPoll::Ready(Ok(m)) && m@ == message,
                    Ok(None) => poll is Pending,
                    Err(error) => poll matches RtcPoll::Ready(Err(e)) && e@ == error,
                }
            }),
    {
        match self.receive(state) {
            Ok(Some(message)) => RtcPoll::Ready(Ok(message)),
            Ok(None) => RtcPoll::Pending,
            Err(error) => RtcPoll::Ready(Err(error)),
        }
    }
}

/// The channels of a connection, in the order of their configurations. Each has its own label, and
/// its place in the list for a number.
pub open spec fn connected(configurations: Seq<RtcDataChannelConfiguration>) -> Seq<
    DataChannelView,
> {
    configurations.map(
        |i: int, configuration: RtcDataChannelConfiguration|
            DataChannelView {
                label: configuration.label@,
                id: (i % 0x1_0000) as u16,
                previous_result: Ok(()),
            },
    )
}

/// Makes the channels of a connection that has been established.
pub fn collate_connected_channels(configurations: &Vec<RtcDataChannelConfiguration>) -> (channels:
    Vec<RtcDataChannel>)
    ensures
        channels@.map_values(|channel: RtcDataChannel| channel@) == connected(configurations@),
{
    let mut channels: Vec<RtcDataChannel> = Vec::new();
    let mut i: usize = 0;
    while i < configurations.len()
        invariant
            i <= configurations.len(),
            channels@.len() == i,
            forall|j: int|
                0 <= j < i ==> (#[trigger] channels@[j])@ == connected(configurations@)[j],
        decreases configurations.len() - i,
    {
        channels.push(RtcDataChannel::new(configurations[i].label.clone(), channel_id(i)));
        i += 1;
    }
    assert(channels@.map_values(|channel: RtcDataChannel| channel@) =~= connected(configurations@));
    channels
}

/// There is one channel for each configuration, under its label. While there are no more channels
/// than numbers, every channel has a number of its own, which is its place.
pub proof fn lemma_channel_numbers(configurations: Seq<RtcDataChannelConfiguration>)
    ensures
        connected(configurations).len() == configurations.len(),
        forall|i: int|
            0 <= i < configurations.len() ==> (#[trigger] connected(configurations)[i]).label
                == configurations[i].label@,
        configurations.len() <= 0x1_0000 ==> forall|i: int|
            0 <= i < configurations.len() ==> (#[trigger] connected(configurations)[i]).id == i,
{
}

/// A state that is written as a number and read again is unchanged, and every number that can be
/// read is that of the state which it stands for.
pub proof fn lemma_ready_state_round_trip(state: RtcDataChannelReadyState, value: u8)
    ensures
        RtcDataChannelReadyState::of_number(state.number()) == Some(state),
        match RtcDataChannelReadyState::of_number(value) {
            Some(read) => read.number() == value,
            None => value > 3,
        },
{
}

/// After an exchange has failed, every later one fails with the same error, changes nothing and
/// takes nothing, and the channel is closed.
pub proof fn lemma_failure_is_final(
    channel: DataChannelView,
    state: HandlerStateView,
    outcome: Result<(), DataChannelErrorView>,
    error: DataChannelErrorView,
)
    requires
        channel.previous_result == Err::<(), _>(error),
    ensures
        channel.send(outcome) == (channel, Err::<(), _>(error)),
        channel.receive(state) == (channel, state, Err::<Option<Seq<u8>>, _>(error)),
        channel.ready_state(state) == RtcDataChannelReadyState::Closed,
{
}

} // verus!
