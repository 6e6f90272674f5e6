//! The negotiation of a peer connection, up to the point where all of its channels are open.
//!
//! The negotiation decides; it performs nothing itself. Each of its methods takes the outcome of
//! the last action and returns the next one. What an operation is and how a message from the
//! remote peer is answered differs from platform to platform; the rest is the same for all.

use vstd::prelude::*;
use std::collections::VecDeque;

use crate::error::RtcPeerConnectionError;
use crate::message::{RtcIceCandidate, RtcNegotiationMessage, RtcNegotiationNotification};

verus! {

/// What a negotiation waits for.
#[derive(Copy, Clone, Debug, PartialEq, Eq, Structural)]
pub enum RtcPhase {
    /// An operation or a message to the remote peer is under way.
    Working,
    /// The open channels are being counted.
    Counting,
    /// The local notifications are being polled.
    Polling,
    /// Messages from the remote peer are being received.
    Receiving,
    /// The connection is being asked whether it has a remote description.
    Inspecting,
    /// Other tasks are being given a turn.
    Yielding,
    /// The negotiation has ended.
    Finished,
}

/// What has to be done next for a negotiation.
#[derive(Debug)]
pub enum RtcAction<O> {
    /// Perform an operation on the connection.
    Perform(O),
    /// Count the channels that have opened so far.
    CountOpenChannels,
    /// Take the next local notification, if there is one.
    PollNotifications,
    /// Send a message to the remote peer.
    SendMessage(RtcNegotiationMessage),
    /// Receive the new messages from the remote peer.
    ReceiveMessages,
    /// Find out whether the connection has a remote description.
    QueryRemoteDescription,
    /// Give other tasks a turn.
    Yield,
    /// Stop: the negotiation has ended.
    Finish(Result<(), RtcPeerConnectionError>),
}

/// The state of a negotiation.
#[derive(Debug)]
pub struct RtcNegotiation<O> {
    /// How many channels have to open.
    pub channel_count: usize,
    /// Whether the operations that set the connection up are done.
    pub established: bool,
    /// What the negotiation waits for.
    pub phase: RtcPhase,
    /// The candidates that arrived before a remote description was there to apply them to.
    pub candidate_buffer: Vec<RtcIceCandidate>,
    /// The message from the remote peer that is being handled.
    pub message: Option<RtcNegotiationMessage>,
    /// The messages from the remote peer that come after it.
    pub messages: VecDeque<RtcNegotiationMessage>,
    /// The operations that come after the one under way.
    pub operations: VecDeque<O>,
}

/// A negotiation, seen as sequences.
#[verifier::ext_equal]
pub struct NegotiationView<O> {
    pub channel_count: nat,
    pub established: bool,
    pub phase: RtcPhase,
    pub candidate_buffer: Seq<RtcIceCandidate>,
    pub message: Option<RtcNegotiationMessage>,
    pub messages: Seq<RtcNegotiationMessage>,
    pub operations: Seq<O>,
}

impl<O> View for RtcNegotiation<O> {
    type V = NegotiationView<O>;

    open spec fn view(&self) -> NegotiationView<O> {
        NegotiationView {
            channel_count: self.channel_count as nat,
            established: self.established,
            phase: self.phase,
            candidate_buffer: self.candidate_buffer@,
            message: self.message,
            messages: self.messages@,
            operations: self.operations@,
        }
    }
}

impl<O> NegotiationView<O> {
    /// A negotiation that has only its first operations before it.
    pub open spec fn initial(channel_count: nat, operations: Seq<O>) -> Self {
        NegotiationView {
            channel_count,
            established: false,
            phase: RtcPhase::Working,
            candidate_buffer: Seq::empty(),
            message: None,
            messages: Seq::empty(),
            operations,
        }
    }

    /// Whether the negotiation is in its loop, between two pieces of work.
    pub open spec fn looping(self) -> bool {
        match self.phase {
            RtcPhase::Counting => true,
            RtcPhase::Polling => true,
            RtcPhase::Receiving => true,
            RtcPhase::Yielding => true,
            _ => false,
        }
    }

    /// A message is being handled exactly while the connection is asked about its remote
    /// description, and no operation is left then. Nothing at all is left to do between two pieces
    /// of work in the loop, and nothing has been received before the loop is entered.
    pub open spec fn well_formed(self) -> bool {
        &&& self.phase == RtcPhase::Inspecting <==> self.message is Some
        &&& self.phase == RtcPhase::Inspecting ==> self.operations.len() == 0
        &&& self.looping() ==> self.established && self.messages.len() == 0
            && self.operations.len() == 0
        &&& !self.established ==> self.message is None && self.messages.len() == 0
            && self.candidate_buffer.len() == 0
    }

    /// What follows a success: the next operation; when there is none, the next message; when
    /// there is none either, another round of the loop, which the first time begins at once.
    pub open spec fn advance(self) -> (Self, RtcAction<O>) {
        if self.operations.len() > 0 {
            (
                NegotiationView {
                    phase: RtcPhase::Working,
                    operations: self.operations.drop_first(),
                    ..self
                },
                RtcAction::Perform(self.operations.first()),
            )
        } else if self.messages.len() > 0 {
            (
                NegotiationView {
                    phase: RtcPhase::Inspecting,
                    message: Some(self.messages.first()),
                    messages: self.messages.drop_first(),
                    ..self
                },
                RtcAction::QueryRemoteDescription,
            )
        } else if self.established {
            (NegotiationView { phase: RtcPhase::Yielding, ..self }, RtcAction::Yield)
        } else {
            (
                NegotiationView { established: true, phase: RtcPhase::Counting, ..self },
                RtcAction::CountOpenChannels,
            )
        }
    }

    /// What follows a failure: the end.
    pub open spec fn fail(self, error: RtcPeerConnectionError) -> (Self, RtcAction<O>) {
        (NegotiationView { phase: RtcPhase::Finished, ..self }, RtcAction::Finish(Err(error)))
    }

    /// What follows an operation that succeeded and calls for others.
    pub open spec fn succeeded(self, more: Seq<O>) -> (Self, RtcAction<O>) {
        NegotiationView { operations: self.operations + more, ..self }.advance()
    }

    /// What follows an operation that calls for no others. A failure while the connection is set
    /// up is one of creation; a later one is one of negotiation.
    pub open spec fn performed(self, outcome: Result<(), String>) -> (Self, RtcAction<O>) {
        match outcome {
            Ok(_) => self.advance(),
            Err(reason) => if self.established {
                self.fail(RtcPeerConnectionError::Negotiation(reason))
            } else {
                self.fail(RtcPeerConnectionError::Creation(reason))
            },
        }
    }

    /// What follows a message to the remote peer.
    pub open spec fn sent(self, outcome: Result<(), RtcPeerConnectionError>) -> (
        Self,
        RtcAction<O>,
    ) {
        match outcome {
            Ok(_) => self.advance(),
            Err(error) => self.fail(error),
        }
    }

    /// What follows the count of the open channels: the end, as soon as all of them are open.
    pub open spec fn open_channels(self, count: nat) -> (Self, RtcAction<O>) {
        if count < self.channel_count {
            (NegotiationView { phase: RtcPhase::Polling, ..self }, RtcAction::PollNotifications)
        } else {
            (NegotiationView { phase: RtcPhase::Finished, ..self }, RtcAction::Finish(Ok(())))
        }
    }

    /// What follows the poll of the notifications. While there is one, it comes before anything
    /// that the remote peer has to say.
    pub open spec fn notified(self, notification: Option<RtcNegotiationNotification>) -> (
        Self,
        RtcAction<O>,
    ) {
        match notification {
            Some(RtcNegotiationNotification::SendMessage(message)) => (
                NegotiationView { phase: RtcPhase::Working, ..self },
                RtcAction::SendMessage(message),
            ),
            Some(RtcNegotiationNotification::Failed(error)) => self.fail(error),
            None => (
                NegotiationView { phase: RtcPhase::Receiving, ..self },
                RtcAction::ReceiveMessages,
            ),
        }
    }

    /// What follows the receipt of messages: each is handled, in order.
    pub open spec fn received(
        self,
        outcome: Result<Vec<RtcNegotiationMessage>, RtcPeerConnectionError>,
    ) -> (Self, RtcAction<O>) {
        match outcome {
            Ok(messages) => NegotiationView { messages: messages@, ..self }.advance(),
            Err(error) => self.fail(error),
        }
    }

    /// What follows the inspection of a message: the operations that it calls for.
    pub open spec fn inspected(
        self,
        candidate_buffer: Seq<RtcIceCandidate>,
        outcome: Result<Seq<O>, RtcPeerConnectionError>,
    ) -> (Self, RtcAction<O>) {
        let handled = NegotiationView { candidate_buffer, message: None, ..self };
        match outcome {
            Ok(operations) => NegotiationView { operations, ..handled }.advance(),
            Err(error) => handled.fail(error),
        }
    }

    /// What follows the turn of the other tasks.
    pub open spec fn yielded(self) -> (Self, RtcAction<O>) {
        (NegotiationView { phase: RtcPhase::Counting, ..self }, RtcAction::CountOpenChannels)
    }
}

/// Turns a list into a queue.
pub fn queue<T>(items: Vec<T>) -> (queue: VecDeque<T>)
    ensures
        queue@ == items@,
{
    let mut rest: Vec<T> = items;
    let mut queue: VecDeque<T> = VecDeque::new();
    assert(rest@ + queue@ =~= items@);
    while rest.len() > 0
        invariant
            rest@ + queue@ == items@,
        decreases rest.len(),
    {
        let ghost before = rest@;
        match rest.pop() {
            Some(item) => {
                let ghost tail = queue@;
                queue.push_front(item);
                assert(rest@ + queue@ =~= before + tail);
            },
            None => {},
        }
    }
    assert(queue@ =~= items@);
    queue
}

/// Numbers the channels of a connection by their place in the list of configurations. The numbers
/// start again after 65535.
pub fn channel_id(index: usize) -> (id: u16)
    ensures
        id == index % 0x1_0000,
{
    assert((index as u16) == index % 0x1_0000) by (bit_vector);
    #[verifier::truncate]
    (index as u16)
}

impl<O> RtcNegotiation<O> {
    /// Begins the negotiation of a number of channels with the operations that set the connection
    /// up, and returns the first action.
    pub fn begin(channel_count: usize, operations: Vec<O>) -> (begun: (Self, RtcAction<O>))
        ensures
            (begun.0@, begun.1) == NegotiationView::initial(
                channel_count as nat,
                operations@,
            ).advance(),
            begun.0@.well_formed(),
    {
        let mut negotiation = RtcNegotiation {
            channel_count,
            established: false,
            phase: RtcPhase::Working,
            candidate_buffer: Vec::new(),
            message: None,
            messages: VecDeque::new(),
            operations: queue(operations),
        };
        let action = negotiation.advance();
        (negotiation, action)
    }

    /// Tells whether the negotiation is well-formed. A program that changes its fields can make sure
    /// with this that it still is.
    pub fn is_well_formed(&self) -> (well_formed: bool)
        ensures
            well_formed == self@.well_formed(),
    {
        let looping: bool = match self.phase {
            RtcPhase::Counting => true,
            RtcPhase::Polling => true,
            RtcPhase::Receiving => true,
            RtcPhase::Yielding => true,
            _ => false,
        };
        let inspecting: bool = self.phase == RtcPhase::Inspecting;
        inspecting == self.message.is_some() && (!inspecting || self.operations.len() == 0) && (
        !looping || self.established && self.messages.len() == 0 && self.operations.len() == 0) && (
        self.established || self.message.is_none() && self.messages.len() == 0
            && self.candidate_buffer.len() == 0)
    }

    /// Moves on after a success.
    fn advance(&mut self) -> (action: RtcAction<O>)
        ensures
            (final(self)@, action) == old(self)@.advance(),
    {
        match self.operations.pop_front() {
            Some(operation) => {
                self.phase = RtcPhase::Working;
                RtcAction::Perform(operation)
            },
            None => match self.messages.pop_front() {
                Some(message) => {
                    self.phase = RtcPhase::Inspecting;
                    self.message = Some(message);
                    RtcAction::QueryRemoteDescription
                },
                None => if self.established {
                    self.phase = RtcPhase::Yielding;
                    RtcAction::Yield
                } else {
                    self.established = true;
                    self.phase = RtcPhase::Counting;
                    RtcAction::CountOpenChannels
                },
            },
        }
    }

    /// Ends the negotiation with an error.
    pub fn fail(&mut self, error: RtcPeerConnectionError) -> (action: RtcAction<O>)
        requires
            old(self)@.well_formed(),
            old(self).phase != RtcPhase::Inspecting,
        ensures
            (final(self)@, action) == old(self)@.fail(error),
            final(self)@.well_formed(),
    {
        self.phase = RtcPhase::Finished;
        RtcAction::Finish(Err(error))
    }

    /// Takes note that an operation succeeded, and of the operations that it calls for.
    pub fn succeeded(&mut self, more: Vec<O>) -> (action: RtcAction<O>)
        requires
            old(self)@.well_formed(),
            old(self).phase == RtcPhase::Working,
        ensures
            (final(self)@, action) == old(self)@.succeeded(more@),
            final(self)@.well_formed(),
    {
        let mut more: VecDeque<O> = queue(more);
        self.operations.append(&mut more);
        self.advance()
    }

    /// Takes note of how an operation went that calls for no others.
    pub fn performed(&mut self, outcome: Result<(), String>) -> (action: RtcAction<O>)
        requires
            old(self)@.well_formed(),
            old(self).phase == RtcPhase::Working,
        ensures
            (final(self)@, action) == old(self)@.performed(outcome),
            final(self)@.well_formed(),
    {
        match outcome {
            Ok(_) => self.advance(),
            Err(reason) => if self.established {
                self.fail(RtcPeerConnectionError::Negotiation(reason))
            } else {
                self.fail(RtcPeerConnectionError::Creation(reason))
            },
        }
    }

    /// Takes note of how sending a message to the remote peer went.
    pub fn sent(&mut self, outcome: Result<(), RtcPeerConnectionError>) -> (action: RtcAction<O>)
        requires
            old(self)@.well_formed(),
            old(self).phase == RtcPhase::Working,
        ensures
            (final(self)@, action) == old(self)@.sent(outcome),
            final(self)@.well_formed(),
    {
        match outcome {
            Ok(_) => self.advance(),
            Err(error) => self.fail(error),
        }
    }

    /// Takes note of how many channels are open.
    pub fn open_channels(&mut self, count: usize) -> (action: RtcAction<O>)
        requires
            old(self)@.well_formed(),
            old(self).phase == RtcPhase::Counting,
        ensures
            (final(self)@, action) == old(self)@.open_channels(count as nat),
            final(self)@.well_formed(),
    {
        if count < self.channel_count {
            self.phase = RtcPhase::Polling;
            RtcAction::PollNotifications
        } else {
            self.phase = RtcPhase::Finished;
            RtcAction::Finish(Ok(()))
        }
    }

    /// Takes note of the next local notification.
    pub fn notified(&mut self, notification: Option<RtcNegotiationNotification>) -> (action:
        RtcAction<O>)
        requires
            old(self)@.well_formed(),
            old(self).phase == RtcPhase::Polling,
        ensures
            (final(self)@, action) == old(self)@.notified(notification),
            final(self)@.well_formed(),
    {
        match notification {
            Some(RtcNegotiationNotification::SendMessage(message)) => {
                self.phase = RtcPhase::Working;
                RtcAction::SendMessage(message)
            },
            Some(RtcNegotiationNotification::Failed(error)) => self.fail(error),
            None => {
                self.phase = RtcPhase::Receiving;
                RtcAction::ReceiveMessages
            },
        }
    }

    /// Takes note of the messages from the remote peer.
    pub fn received(
        &mut self,
        outcome: Result<Vec<RtcNegotiationMessage>, RtcPeerConnectionError>,
    ) -> (action: RtcAction<O>)
        requires
            old(self)@.well_formed(),
            old(self).phase == RtcPhase::Receiving,
        ensures
            (final(self)@, action) == old(self)@.received(outcome),
            final(self)@.well_formed(),
    {
        match outcome {
            Ok(messages) => {
                self.messages = queue(messages);
                self.advance()
            },
            Err(error) => self.fail(error),
        }
    }

    /// Takes note of the operations that the message being handled, which has been taken out of
    /// the negotiation, calls for.
    pub fn inspected(&mut self, outcome: Result<Vec<O>, RtcPeerConnectionError>) -> (action:
        RtcAction<O>)
        requires
            old(self).phase == RtcPhase::Inspecting,
            old(self).established,
            old(self).message is None,
            old(self)@.operations.len() == 0,
        ensures
            (final(self)@, action) == old(self)@.inspected(
                old(self)@.candidate_buffer,
                match outcome {
                    Ok(operations) => Ok(operations@),
                    Err(error) => Err(error),
                },
            ),
            final(self)@.well_formed(),
    {
        match outcome {
            Ok(operations) => {
                self.operations = queue(operations);
                self.advance()
            },
            Err(error) => {
                self.phase = RtcPhase::Finished;
                RtcAction::Finish(Err(error))
            },
        }
    }

    /// Takes note that the other tasks have had their turn.
    pub fn yielded(&mut self) -> (action: RtcAction<O>)
        requires
            old(self)@.well_formed(),
            old(self).phase == RtcPhase::Yielding,
        ensures
            (final(self)@, action) == old(self)@.yielded(),
            final(self)@.well_formed(),
    {
        self.phase = RtcPhase::Counting;
        RtcAction::CountOpenChannels
    }
}

} // verus!
