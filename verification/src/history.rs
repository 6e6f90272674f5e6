//! What holds throughout a negotiation, whatever happens in it.

use vstd::prelude::*;

use crate::error::RtcPeerConnectionError;
use crate::message::{RtcIceCandidate, RtcNegotiationMessage, RtcNegotiationNotification};
use crate::negotiation::{NegotiationView, RtcAction, RtcPhase};

verus! {

/// What the operations of every platform have in common.
pub trait RemoteOperation: Sized {
    /// The candidate of the remote peer that the operation applies, if it applies one.
    spec fn candidate(self) -> Option<RtcIceCandidate>;

    /// Whether the operation sets the description of the remote session.
    spec fn describes(self) -> bool;
}

/// The candidates that operations apply, in order.
pub open spec fn applied_by<O: RemoteOperation>(operations: Seq<O>) -> Seq<RtcIceCandidate>
    decreases operations.len(),
{
    if operations.len() == 0 {
        Seq::empty()
    } else {
        (match operations.first().candidate() {
            Some(candidate) => seq![candidate],
            None => Seq::empty(),
        }) + applied_by(operations.drop_first())
    }
}

/// The candidates that messages tell of, in order.
pub open spec fn told_by(messages: Seq<RtcNegotiationMessage>) -> Seq<RtcIceCandidate>
    decreases messages.len(),
{
    if messages.len() == 0 {
        Seq::empty()
    } else {
        told_by(messages.drop_last()) + (match messages.last() {
            RtcNegotiationMessage::RemoteCandidate(candidate) => seq![candidate],
            RtcNegotiationMessage::RemoteSessionDescription(_) => Seq::empty(),
        })
    }
}

/// Whether none of the operations has to do with the remote session.
pub open spec fn is_local<O: RemoteOperation>(operations: Seq<O>) -> bool {
    forall|i: int|
        0 <= i < operations.len() ==> (#[trigger] operations[i]).candidate() is None
            && !operations[i].describes()
}

/// Whether the operations set the description of the remote session at position `n` and nowhere
/// else, and apply the given candidates after that.
pub open spec fn describes_at<O: RemoteOperation>(
    operations: Seq<O>,
    n: int,
    candidates: Seq<RtcIceCandidate>,
) -> bool {
    &&& 0 <= n < operations.len()
    &&& operations[n].describes()
    &&& operations[n].candidate() is None
    &&& is_local(operations.take(n))
    &&& forall|i: int| n < i < operations.len() ==> !(#[trigger] operations[i]).describes()
    &&& applied_by(operations.skip(n + 1)) == candidates
}

/// Whether a message from the remote peer is answered as it should be. A candidate is applied
/// where there is a remote description, and waits otherwise. A description is ignored; or, where
/// there is none yet, it is set, and all waiting candidates are applied after it.
pub open spec fn orderly<O: RemoteOperation>(
    candidates: Seq<RtcIceCandidate>,
    known: bool,
    message: RtcNegotiationMessage,
    waiting: Seq<RtcIceCandidate>,
    operations: Seq<O>,
) -> bool {
    match message {
        RtcNegotiationMessage::RemoteCandidate(candidate) => if known {
            &&& waiting == candidates
            &&& operations.len() == 1
            &&& operations[0].candidate() == Some(candidate)
            &&& !operations[0].describes()
        } else {
            &&& waiting == candidates.push(candidate)
            &&& operations.len() == 0
        },
        RtcNegotiationMessage::RemoteSessionDescription(_) => {
            ||| waiting == candidates && operations.len() == 0
            ||| !known && waiting.len() == 0 && exists|n: int|
                #[trigger] describes_at(operations, n, candidates)
        },
    }
}

/// Something that happens in a negotiation.
pub enum RtcEvent<O> {
    /// An operation succeeded and calls for others.
    Succeeded(Seq<O>),
    /// An operation failed for good.
    Failed(RtcPeerConnectionError),
    /// An operation that calls for no others was performed.
    Performed(Result<(), String>),
    /// A message to the remote peer was sent.
    Sent(Result<(), RtcPeerConnectionError>),
    /// The open channels were counted.
    OpenChannels(nat),
    /// The notifications were polled.
    Notified(Option<RtcNegotiationNotification>),
    /// Messages from the remote peer were received.
    Received(Result<Vec<RtcNegotiationMessage>, RtcPeerConnectionError>),
    /// A message from the remote peer was inspected, where the connection had a remote description
    /// or not. Tells the candidates that wait afterwards, and the operations that it calls for.
    Inspected(bool, Seq<RtcIceCandidate>, Result<Seq<O>, RtcPeerConnectionError>),
    /// The other tasks have had their turn.
    Yielded,
}

/// A negotiation together with what has happened in it so far.
pub struct NegotiationHistory<O> {
    /// The negotiation as it stands.
    pub negotiation: NegotiationView<O>,
    /// The last action.
    pub action: RtcAction<O>,
    /// Whether the connection has a remote description.
    pub described: bool,
    /// How often the negotiation wanted a remote description to be set.
    pub descriptions: nat,
    /// All candidates that the negotiation wanted to be applied.
    pub applied: Seq<RtcIceCandidate>,
    /// All messages that local notifications wanted to be sent.
    pub noticed: Seq<RtcNegotiationMessage>,
    /// All messages of local notifications that the negotiation sent.
    pub sent: Seq<RtcNegotiationMessage>,
    /// All messages that were received from the remote peer.
    pub received: Seq<RtcNegotiationMessage>,
    /// All messages that were handled.
    pub handled: Seq<RtcNegotiationMessage>,
}

/// The candidate that an action wants to be applied.
pub open spec fn applies<O: RemoteOperation>(action: RtcAction<O>) -> Seq<RtcIceCandidate> {
    match action {
        RtcAction::Perform(operation) => match operation.candidate() {
            Some(candidate) => seq![candidate],
            None => Seq::empty(),
        },
        _ => Seq::empty(),
    }
}

/// Whether an action wants a remote description to be set.
pub open spec fn wants_description<O: RemoteOperation>(action: RtcAction<O>) -> bool {
    action matches RtcAction::Perform(operation) && operation.describes()
}

/// An optional message as a sequence.
pub open spec fn current(message: Option<RtcNegotiationMessage>) -> Seq<RtcNegotiationMessage> {
    match message {
        Some(message) => seq![message],
        None => Seq::empty(),
    }
}

impl<O: RemoteOperation> NegotiationHistory<O> {
    /// The history of a negotiation that has just begun.
    pub open spec fn begun(channel_count: nat, operations: Seq<O>) -> Self {
        let (negotiation, action) = NegotiationView::initial(channel_count, operations).advance();
        NegotiationHistory {
            negotiation,
            action,
            described: false,
            descriptions: 0,
            applied: Seq::empty(),
            noticed: Seq::empty(),
            sent: Seq::empty(),
            received: Seq::empty(),
            handled: Seq::empty(),
        }
    }

    /// Whether an event can happen next. It answers the last action; the connection tells the truth
    /// about its remote description; and messages are answered as they should be.
    pub open spec fn possible(self, event: RtcEvent<O>) -> bool {
        let phase = self.negotiation.phase;
        match event {
            RtcEvent::Succeeded(more) => phase == RtcPhase::Working && is_local(more),
            RtcEvent::Failed(_) => phase == RtcPhase::Working,
            RtcEvent::Performed(_) => phase == RtcPhase::Working,
            RtcEvent::Sent(_) => phase == RtcPhase::Working,
            RtcEvent::OpenChannels(_) => phase == RtcPhase::Counting,
            RtcEvent::Notified(_) => phase == RtcPhase::Polling,
            RtcEvent::Received(_) => phase == RtcPhase::Receiving,
            RtcEvent::Inspected(known, waiting, outcome) => {
                &&& phase == RtcPhase::Inspecting
                &&& known == self.described
                &&& match outcome {
                    Ok(operations) => orderly(
                        self.negotiation.candidate_buffer,
                        known,
                        self.negotiation.message->0,
                        waiting,
                        operations,
                    ),
                    Err(_) => waiting == self.negotiation.candidate_buffer
                        && self.negotiation.message->0 is RemoteSessionDescription,
                }
            },
            RtcEvent::Yielded => phase == RtcPhase::Yielding,
        }
    }

    /// The negotiation after an event, and the action that follows.
    pub open spec fn outcome(self, event: RtcEvent<O>) -> (NegotiationView<O>, RtcAction<O>) {
        match event {
            RtcEvent::Succeeded(more) => self.negotiation.succeeded(more),
            RtcEvent::Failed(error) => self.negotiation.fail(error),
            RtcEvent::Performed(outcome) => self.negotiation.performed(outcome),
            RtcEvent::Sent(outcome) => self.negotiation.sent(outcome),
            RtcEvent::OpenChannels(count) => self.negotiation.open_channels(count),
            RtcEvent::Notified(notification) => self.negotiation.notified(notification),
            RtcEvent::Received(outcome) => self.negotiation.received(outcome),
            RtcEvent::Inspected(_, waiting, outcome) => self.negotiation.inspected(waiting, outcome),
            RtcEvent::Yielded => self.negotiation.yielded(),
        }
    }

    /// Whether an event reports a success.
    pub open spec fn is_success(event: RtcEvent<O>) -> bool {
        match event {
            RtcEvent::Succeeded(_) => true,
            RtcEvent::Performed(outcome) => outcome is Ok,
            RtcEvent::Sent(outcome) => outcome is Ok,
            _ => false,
        }
    }

    /// The history after an event.
    pub open spec fn after(self, event: RtcEvent<O>) -> Self {
        let (negotiation, action) = self.outcome(event);
        NegotiationHistory {
            negotiation,
            action,
            described: self.described || wants_description(self.action) && Self::is_success(event),
            descriptions: if wants_description(action) {
                self.descriptions + 1
            } else {
                self.descriptions
            },
            applied: self.applied + applies(action),
            noticed: match event {
                RtcEvent::Notified(Some(RtcNegotiationNotification::SendMessage(message))) =>
                    self.noticed.push(message),
                _ => self.noticed,
            },
            sent: match action {
                RtcAction::SendMessage(message) => self.sent.push(message),
                _ => self.sent,
            },
            received: match event {
                RtcEvent::Received(Ok(messages)) => self.received + messages@,
                _ => self.received,
            },
            handled: match event {
                RtcEvent::Inspected(_, _, _) => self.handled.push(self.negotiation.message->0),
                _ => self.handled,
            },
        }
    }

    /// Whether a list of events can happen, one after the other.
    pub open spec fn all_possible(self, events: Seq<RtcEvent<O>>) -> bool
        decreases events.len(),
    {
        events.len() > 0 ==> self.possible(events.first()) && self.after(
            events.first(),
        ).all_possible(events.drop_first())
    }

    /// The history after a list of events.
    pub open spec fn after_all(self, events: Seq<RtcEvent<O>>) -> Self
        decreases events.len(),
    {
        if events.len() == 0 {
            self
        } else {
            self.after(events.first()).after_all(events.drop_first())
        }
    }

    /// The candidates that have been told, but whose application has not been wanted yet.
    pub open spec fn outstanding(self) -> Seq<RtcIceCandidate> {
        applied_by(self.negotiation.operations) + self.negotiation.candidate_buffer
    }

    /// Every message of a local notification is sent once, in the order of the notifications. Every
    /// message is handled once, in the order in which they were received. Every candidate among the
    /// handled messages is applied once, in the same order, or is still outstanding. No candidate
    /// is applied before there is a remote description, and at most one remote description is set.
    pub open spec fn in_order(self) -> bool {
        &&& self.sent == self.noticed
        &&& self.received == self.handled + current(self.negotiation.message)
            + self.negotiation.messages
        &&& told_by(self.handled) == self.applied + self.outstanding()
        &&& self.applied.len() > 0 ==> self.described
        &&& self.descriptions <= 1
    }
}

proof fn lemma_applied_by_concat<O: RemoteOperation>(first: Seq<O>, second: Seq<O>)
    ensures
        applied_by(first + second) == applied_by(first) + applied_by(second),
    decreases first.len(),
{
    if first.len() == 0 {
        assert(first + second =~= second);
        assert(applied_by(first) + applied_by(second) =~= applied_by(second));
    } else {
        assert((first + second).drop_first() =~= first.drop_first() + second);
        lemma_applied_by_concat(first.drop_first(), second);
        assert(applied_by(first + second) =~= applied_by(first) + applied_by(second));
    }
}

proof fn lemma_local_applies_nothing<O: RemoteOperation>(operations: Seq<O>)
    requires
        is_local(operations),
    ensures
        applied_by(operations) == Seq::<RtcIceCandidate>::empty(),
    decreases operations.len(),
{
    if operations.len() > 0 {
        assert(operations.first() == operations[0]);
        assert forall|i: int| 0 <= i < operations.drop_first().len() implies (
        #[trigger] operations.drop_first()[i]).candidate() is None
            && !operations.drop_first()[i].describes() by {
            assert(operations.drop_first()[i] == operations[i + 1]);
        }
        lemma_local_applies_nothing(operations.drop_first());
        assert(applied_by(operations) =~= Seq::empty());
    }
}

/// Operations that set the remote description apply exactly the candidates that come after it.
proof fn lemma_described_candidates<O: RemoteOperation>(
    operations: Seq<O>,
    n: int,
    candidates: Seq<RtcIceCandidate>,
)
    requires
        describes_at(operations, n, candidates),
    ensures
        applied_by(operations) == candidates,
{
    assert(operations =~= operations.take(n) + operations.skip(n));
    lemma_applied_by_concat(operations.take(n), operations.skip(n));
    lemma_local_applies_nothing(operations.take(n));
    assert(operations.skip(n).first() == operations[n]);
    assert(operations.skip(n).drop_first() =~= operations.skip(n + 1));
    assert(applied_by(operations.skip(n)) =~= candidates);
    assert(applied_by(operations) =~= candidates);
}

/// Whether none of the operations sets the remote description.
spec fn describes_nothing<O: RemoteOperation>(operations: Seq<O>) -> bool {
    forall|i: int| 0 <= i < operations.len() ==> !(#[trigger] operations[i]).describes()
}

impl<O: RemoteOperation> NegotiationHistory<O> {
    /// Whether the remote description is being set.
    spec fn describing(self) -> bool {
        self.negotiation.phase == RtcPhase::Working && wants_description(self.action)
    }

    /// No remote description is in sight, and no operation has to do with one.
    spec fn unaware(self) -> bool {
        &&& !self.described
        &&& self.descriptions == 0
        &&& self.applied.len() == 0
        &&& is_local(self.negotiation.operations)
    }

    /// The remote description is about to be set, with the waiting candidates after it.
    spec fn planned(self) -> bool {
        &&& !self.described
        &&& self.descriptions == 0
        &&& self.applied.len() == 0
        &&& self.negotiation.candidate_buffer.len() == 0
        &&& exists|n: int|
            #[trigger] describes_at(
                self.negotiation.operations,
                n,
                applied_by(self.negotiation.operations),
            )
    }

    /// The remote description has been set.
    spec fn aware(self) -> bool {
        &&& self.described
        &&& self.descriptions == 1
        &&& self.negotiation.candidate_buffer.len() == 0
        &&& describes_nothing(self.negotiation.operations)
    }

    /// What holds while nothing is under way that concerns the remote description.
    spec fn resting(self) -> bool {
        self.unaware() || self.planned() || self.aware()
    }

    /// What holds after every event.
    spec fn sound(self) -> bool {
        &&& self.negotiation.well_formed()
        &&& self.in_order()
        &&& self.negotiation.phase != RtcPhase::Finished ==> if self.describing() {
            &&& !self.described
            &&& self.descriptions == 1
            &&& self.applied.len() == 0
            &&& self.negotiation.candidate_buffer.len() == 0
            &&& describes_nothing(self.negotiation.operations)
        } else {
            self.resting()
        }
    }

    /// Moving on keeps everything in order.
    proof fn lemma_advance(self) -> (next: Self)
        requires
            self.negotiation.message is None,
            !self.negotiation.established ==> self.negotiation.messages.len() == 0
                && self.negotiation.candidate_buffer.len() == 0,
            self.in_order(),
            self.resting(),
        ensures
            next.sound(),
            (next.negotiation, next.action) == self.negotiation.advance(),
            next.described == self.described,
            next.descriptions == self.descriptions + (if wants_description(next.action) {
                1nat
            } else {
                0nat
            }),
            next.applied == self.applied + applies(next.action),
            next.noticed == self.noticed,
            next.sent == self.sent,
            next.received == self.received,
            next.handled == self.handled,
    {
        let old_negotiation = self.negotiation;
        let operations = old_negotiation.operations;
        let (negotiation, action) = old_negotiation.advance();
        let next = NegotiationHistory {
            negotiation,
            action,
            descriptions: self.descriptions + (if wants_description(action) {
                1nat
            } else {
                0nat
            }),
            applied: self.applied + applies(action),
            ..self
        };
        assert(self.handled + current(None) + old_negotiation.messages =~= self.handled
            + old_negotiation.messages);
        if operations.len() > 0 {
            let rest = operations.drop_first();
            let operation = operations.first();
            assert(operation == operations[0]);
            assert(forall|i: int| 0 <= i < rest.len() ==> rest[i] == operations[i + 1]);
            assert(applied_by(operations) =~= applies(action) + applied_by(rest));
            assert(self.applied + (applied_by(operations) + old_negotiation.candidate_buffer)
                =~= next.applied + (applied_by(rest) + old_negotiation.candidate_buffer));
            assert(next.handled + current(None) + negotiation.messages =~= self.handled
                + old_negotiation.messages);
            if self.unaware() {
                assert(is_local(rest)) by {
                    assert forall|i: int| 0 <= i < rest.len() implies (
                    #[trigger] rest[i]).candidate() is None && !rest[i].describes() by {
                        assert(rest[i] == operations[i + 1]);
                    }
                }
                assert(next.applied =~= Seq::empty());
                assert(next.unaware());
            } else if self.planned() {
                let n = choose|n: int|
                    #[trigger] describes_at(operations, n, applied_by(operations));
                if n == 0 {
                    assert(describes_nothing(rest)) by {
                        assert forall|i: int| 0 <= i < rest.len() implies !(
                        #[trigger] rest[i]).describes() by {
                            assert(rest[i] == operations[i + 1]);
                        }
                    }
                    assert(next.applied =~= Seq::empty());
                    assert(next.describing());
                } else {
                    assert(operations.take(n)[0] == operations[0]);
                    assert(operation.candidate() is None && !operation.describes());
                    assert(applied_by(operations) =~= applied_by(rest));
                    assert(rest.take(n - 1) =~= operations.take(n).drop_first());
                    assert(is_local(rest.take(n - 1))) by {
                        assert forall|i: int| 0 <= i < rest.take(n - 1).len() implies (
                        #[trigger] rest.take(n - 1)[i]).candidate() is None && !rest.take(
                            n - 1,
                        )[i].describes() by {
                            assert(rest.take(n - 1)[i] == operations.take(n)[i + 1]);
                        }
                    }
                    assert(rest.skip(n) =~= operations.skip(n + 1));
                    assert(rest[n - 1] == operations[n]);
                    assert forall|i: int| n - 1 < i < rest.len() implies !(
                    #[trigger] rest[i]).describes() by {
                        assert(rest[i] == operations[i + 1]);
                    }
                    assert(describes_at(rest, n - 1, applied_by(rest)));
                    assert(next.applied =~= Seq::empty());
                    assert(next.negotiation.operations == rest);
                    assert(next.planned());
                }
            } else {
                assert(describes_nothing(rest)) by {
                    assert forall|i: int| 0 <= i < rest.len() implies !(
                    #[trigger] rest[i]).describes() by {
                        assert(rest[i] == operations[i + 1]);
                    }
                }
                assert(next.aware());
            }
        } else {
            assert(next.applied =~= self.applied);
            if old_negotiation.messages.len() > 0 {
                assert(next.handled + current(negotiation.message) + negotiation.messages
                    =~= self.handled + old_negotiation.messages);
            }
            assert(next.resting());
        }
        next
    }

    /// Every event keeps everything in order.
    proof fn lemma_after(self, event: RtcEvent<O>)
        requires
            self.sound(),
            self.possible(event),
        ensures
            self.after(event).sound(),
    {
        let next = self.after(event);
        let negotiation = self.negotiation;
        match event {
            RtcEvent::Succeeded(more) => self.lemma_success(event, more),
            RtcEvent::Performed(Ok(_)) => self.lemma_success(event, Seq::empty()),
            RtcEvent::Sent(Ok(_)) => self.lemma_success(event, Seq::empty()),
            RtcEvent::Received(Ok(messages)) => {
                let before = NegotiationHistory {
                    negotiation: NegotiationView { messages: messages@, ..negotiation },
                    received: self.received + messages@,
                    ..self
                };
                assert(self.received =~= self.handled);
                assert(before.received =~= before.handled + current(None) + messages@);
                let moved = before.lemma_advance();
                assert(next == moved);
            },
            RtcEvent::Inspected(known, waiting, outcome) => {
                let message = negotiation.message->0;
                let handled = self.handled.push(message);
                assert(handled.drop_last() =~= self.handled);
                assert(applied_by(negotiation.operations) =~= Seq::empty());
                assert(self.outstanding() =~= negotiation.candidate_buffer);
                assert(self.received =~= handled + current(None) + negotiation.messages);
                match outcome {
                    Ok(operations) => {
                        let before = NegotiationHistory {
                            negotiation: NegotiationView {
                                candidate_buffer: waiting,
                                message: None,
                                operations,
                                ..negotiation
                            },
                            handled,
                            ..self
                        };
                        self.lemma_inspected(before, known);
                        let moved = before.lemma_advance();
                        assert(next == moved);
                    },
                    Err(error) => {
                        assert(told_by(handled) =~= told_by(self.handled));
                        assert(next.applied =~= self.applied);
                        assert(next.outstanding() =~= self.outstanding());
                    },
                }
            },
            _ => {
                assert(next.applied =~= self.applied);
                assert(next.handled + current(next.negotiation.message) + next.negotiation.messages
                    =~= self.handled + current(negotiation.message) + negotiation.messages);
            },
        }
    }

    /// A success keeps everything in order.
    proof fn lemma_success(self, event: RtcEvent<O>, more: Seq<O>)
        requires
            self.sound(),
            self.possible(event),
            self.negotiation.phase == RtcPhase::Working,
            Self::is_success(event),
            is_local(more),
            event matches RtcEvent::Succeeded(m) ==> m == more,
            !(event is Succeeded) ==> more.len() == 0,
        ensures
            self.after(event).sound(),
    {
        let negotiation = self.negotiation;
        let operations = negotiation.operations + more;
        let before = NegotiationHistory {
            negotiation: NegotiationView { operations, ..negotiation },
            described: self.described || wants_description(self.action),
            ..self
        };
        lemma_applied_by_concat(negotiation.operations, more);
        lemma_local_applies_nothing(more);
        assert(applied_by(operations) =~= applied_by(negotiation.operations));
        if more.len() == 0 {
            assert(operations =~= negotiation.operations);
        }
        assert forall|i: int| 0 <= i < operations.len() implies operations[i] == if i
            < negotiation.operations.len() {
            negotiation.operations[i]
        } else {
            more[i - negotiation.operations.len()]
        } by {}
        if self.describing() || self.aware() {
            assert(describes_nothing(operations));
            assert(before.aware());
        } else if self.unaware() {
            assert(is_local(operations));
            assert(before.unaware());
        } else {
            let n = choose|n: int|
                #[trigger] describes_at(
                    negotiation.operations,
                    n,
                    applied_by(negotiation.operations),
                );
            assert(operations.take(n) =~= negotiation.operations.take(n));
            assert(operations.skip(n + 1) =~= negotiation.operations.skip(n + 1) + more);
            lemma_applied_by_concat(negotiation.operations.skip(n + 1), more);
            assert(applied_by(operations.skip(n + 1)) =~= applied_by(
                negotiation.operations.skip(n + 1),
            ));
            assert(describes_at(operations, n, applied_by(operations)));
            assert(before.planned());
        }
        let moved = before.lemma_advance();
        assert(self.after(event) == moved);
    }

    /// Handling a message as it should be keeps everything in order.
    proof fn lemma_inspected(self, before: Self, known: bool)
        requires
            self.sound(),
            self.negotiation.phase == RtcPhase::Inspecting,
            known == self.described,
            orderly(
                self.negotiation.candidate_buffer,
                known,
                self.negotiation.message->0,
                before.negotiation.candidate_buffer,
                before.negotiation.operations,
            ),
            before.handled == self.handled.push(self.negotiation.message->0),
            before.noticed == self.noticed,
            before.sent == self.sent,
            before.received == self.received,
            before.described == self.described,
            before.descriptions == self.descriptions,
            before.applied == self.applied,
            before.negotiation.message is None,
            before.negotiation.messages == self.negotiation.messages,
        ensures
            before.in_order(),
            before.resting(),
    {
        let message = self.negotiation.message->0;
        let candidates = self.negotiation.candidate_buffer;
        let operations = before.negotiation.operations;
        assert(before.handled.drop_last() =~= self.handled);
        assert(applied_by(self.negotiation.operations) =~= Seq::empty());
        assert(self.outstanding() =~= candidates);
        assert(before.received =~= before.handled + current(None) + before.negotiation.messages);
        assert(self.unaware() || self.aware()) by {
            if self.planned() {
                let n = choose|n: int|
                    #[trigger] describes_at(
                        self.negotiation.operations,
                        n,
                        applied_by(self.negotiation.operations),
                    );
                assert(false);
            }
        }
        match message {
            RtcNegotiationMessage::RemoteCandidate(candidate) => {
                if known {
                    assert(operations.drop_first() =~= Seq::empty());
                    assert(operations.first() == operations[0]);
                    assert(applied_by(operations.drop_first()) =~= Seq::empty());
                    assert(applied_by(operations) =~= seq![candidate]);
                    assert(told_by(before.handled) =~= before.applied + before.outstanding());
                    assert(before.aware());
                } else {
                    assert(applied_by(operations) =~= Seq::empty());
                    assert(told_by(before.handled) =~= before.applied + before.outstanding());
                    assert(before.unaware());
                }
            },
            RtcNegotiationMessage::RemoteSessionDescription(_) => {
                assert(told_by(before.handled) =~= told_by(self.handled));
                if before.negotiation.candidate_buffer == candidates && operations.len() == 0 {
                    assert(applied_by(operations) =~= Seq::empty());
                    assert(before.outstanding() =~= candidates);
                    if self.unaware() {
                        assert(before.unaware());
                    } else {
                        assert(before.aware());
                    }
                } else {
                    let n = choose|n: int| #[trigger] describes_at(operations, n, candidates);
                    lemma_described_candidates(operations, n, candidates);
                    assert(before.outstanding() =~= candidates);
                    assert(before.planned());
                }
            },
        }
    }

    proof fn lemma_after_all(self, events: Seq<RtcEvent<O>>)
        requires
            self.sound(),
            self.all_possible(events),
        ensures
            self.after_all(events).sound(),
        decreases events.len(),
    {
        if events.len() > 0 {
            self.lemma_after(events.first());
            self.after(events.first()).lemma_after_all(events.drop_first());
        }
    }
}

/// Whatever happens in a negotiation, every message that the local peer has to tell is sent once and
/// in order; every message of the remote peer is handled once and in the order of arrival; every
/// candidate is applied once and in the order of arrival, or is kept; none is applied before
/// there is a remote description; and at most one remote description is set.
pub proof fn lemma_negotiation_in_order<O: RemoteOperation>(
    channel_count: nat,
    operations: Seq<O>,
    events: Seq<RtcEvent<O>>,
)
    requires
        is_local(operations),
        NegotiationHistory::begun(channel_count, operations).all_possible(events),
    ensures
        NegotiationHistory::begun(channel_count, operations).after_all(events).in_order(),
{
    let begun = NegotiationHistory::begun(channel_count, operations);
    let initial = NegotiationView::initial(channel_count, operations);
    let before = NegotiationHistory { negotiation: initial, ..begun };
    lemma_local_applies_nothing(operations);
    assert(told_by(before.handled) =~= Seq::empty());
    assert(before.outstanding() =~= Seq::empty());
    assert(told_by(before.handled) =~= before.applied + before.outstanding());
    assert(before.received =~= before.handled + current(None) + initial.messages);
    assert(before.unaware());
    let moved = before.lemma_advance();
    assert(begun.applied =~= moved.applied) by {
        if operations.len() > 0 {
            assert(operations.first() == operations[0]);
        }
    }
    assert(begun == moved) by {
        if operations.len() > 0 {
            assert(operations.first() == operations[0]);
        }
    }
    begun.lemma_after_all(events);
}

/// A negotiation ends well exactly when all channels are found to be open.
pub proof fn lemma_success_needs_open_channels<O: RemoteOperation>(
    history: NegotiationHistory<O>,
    event: RtcEvent<O>,
)
    requires
        history.possible(event),
    ensures
        history.after(event).action == RtcAction::<O>::Finish(Ok(())) <==> (
        event matches RtcEvent::OpenChannels(count) && count >= history.negotiation.channel_count),
{
}

/// The error that an event reports, if it reports one.
pub open spec fn failure<O: RemoteOperation>(
    history: NegotiationHistory<O>,
    event: RtcEvent<O>,
) -> Option<RtcPeerConnectionError> {
    match event {
        RtcEvent::Failed(error) => Some(error),
        RtcEvent::Performed(Err(reason)) => if history.negotiation.established {
            Some(RtcPeerConnectionError::Negotiation(reason))
        } else {
            Some(RtcPeerConnectionError::Creation(reason))
        },
        RtcEvent::Sent(Err(error)) => Some(error),
        RtcEvent::Notified(Some(RtcNegotiationNotification::Failed(error))) => Some(error),
        RtcEvent::Received(Err(error)) => Some(error),
        RtcEvent::Inspected(_, _, Err(error)) => Some(error),
        _ => None,
    }
}

/// The first error ends a negotiation, which reports that error; and nothing else makes it report
/// one.
pub proof fn lemma_first_error_is_reported<O: RemoteOperation>(
    history: NegotiationHistory<O>,
    event: RtcEvent<O>,
    error: RtcPeerConnectionError,
)
    requires
        history.possible(event),
    ensures
        history.after(event).action == RtcAction::<O>::Finish(Err(error)) <==> failure(
            history,
            event,
        ) == Some(error),
{
}

/// Once a negotiation has ended, nothing more happens in it.
pub proof fn lemma_finished_is_final<O: RemoteOperation>(
    history: NegotiationHistory<O>,
    event: RtcEvent<O>,
)
    requires
        history.negotiation.phase == RtcPhase::Finished,
    ensures
        !history.possible(event),
{
}

} // verus!
