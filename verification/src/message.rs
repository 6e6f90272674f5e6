//! What two peers tell each other through the signaling server.

use vstd::prelude::*;

use crate::error::RtcPeerConnectionError;
use crate::text::text_equals;

verus! {

/// Describes a possible way to connect to a remote peer.
#[derive(Debug)]
pub struct RtcIceCandidate {
    /// The candidate name.
    pub candidate: String,
    /// The SDP description string describing the candidate.
    pub sdp_mid: String,
}

impl Clone for RtcIceCandidate {
    fn clone(&self) -> (copy: Self)
        ensures
            copy == *self,
    {
        RtcIceCandidate { candidate: self.candidate.clone(), sdp_mid: self.sdp_mid.clone() }
    }
}

/// Describes a remote peer's session.
#[derive(Debug)]
pub struct RtcSessionDescription {
    /// The SDP description string describing the session.
    pub sdp: String,
    /// The SDP type.
    pub sdp_type: String,
}

impl Clone for RtcSessionDescription {
    fn clone(&self) -> (copy: Self)
        ensures
            copy == *self,
    {
        RtcSessionDescription { sdp: self.sdp.clone(), sdp_type: self.sdp_type.clone() }
    }
}

/// Provides data about a potential connection route to a remote peer.
#[derive(Debug)]
pub enum RtcNegotiationMessage {
    /// Adds a remote candidate for consideration.
    RemoteCandidate(RtcIceCandidate),
    /// Describes the state of a remote session.
    RemoteSessionDescription(RtcSessionDescription),
}

impl Clone for RtcNegotiationMessage {
    fn clone(&self) -> (copy: Self)
        ensures
            copy == *self,
    {
        match self {
            RtcNegotiationMessage::RemoteCandidate(c) => RtcNegotiationMessage::RemoteCandidate(
                c.clone(),
            ),
            RtcNegotiationMessage::RemoteSessionDescription(d) =>
                RtcNegotiationMessage::RemoteSessionDescription(d.clone()),
        }
    }
}

/// Notifies the local connector about an event during connection establishment.
#[derive(Debug)]
pub enum RtcNegotiationNotification {
    /// A message should be sent to the remote peer.
    SendMessage(RtcNegotiationMessage),
    /// The connection failed with an error.
    Failed(RtcPeerConnectionError),
}

/// The role of a session description in the exchange of offer and answer.
#[derive(Copy, Clone, Debug, PartialEq, Eq, Structural)]
pub enum RtcSdpType {
    /// A description that answers an offer.
    Answer,
    /// A description that opens an exchange.
    Offer,
    /// An answer that may still change.
    Pranswer,
    /// A request to return to the previous description.
    Rollback,
}

impl RtcSdpType {
    /// The word for this role on the wire.
    pub open spec fn text(self) -> Seq<char> {
        match self {
            RtcSdpType::Answer => "answer"@,
            RtcSdpType::Offer => "offer"@,
            RtcSdpType::Pranswer => "pranswer"@,
            RtcSdpType::Rollback => "rollback"@,
        }
    }

    /// The role that a word on the wire stands for. A word that stands for none is taken for an
    /// offer.
    pub open spec fn of_text(text: Seq<char>) -> RtcSdpType {
        if text == "answer"@ {
            RtcSdpType::Answer
        } else if text == "pranswer"@ {
            RtcSdpType::Pranswer
        } else if text == "rollback"@ {
            RtcSdpType::Rollback
        } else {
            RtcSdpType::Offer
        }
    }

    /// Writes the role as the word that the peers exchange.
    pub fn as_str(self) -> (text: &'static str)
        ensures
            text@ == self.text(),
    {
        match self {
            RtcSdpType::Answer => "answer",
            RtcSdpType::Offer => "offer",
            RtcSdpType::Pranswer => "pranswer",
            RtcSdpType::Rollback => "rollback",
        }
    }

    /// Reads the role from the word that the peers exchange.
    pub fn from_text(text: &str) -> (sdp_type: RtcSdpType)
        ensures
            sdp_type == RtcSdpType::of_text(text@),
    {
        if text_equals(text, "answer") {
            RtcSdpType::Answer
        } else if text_equals(text, "pranswer") {
            RtcSdpType::Pranswer
        } else if text_equals(text, "rollback") {
            RtcSdpType::Rollback
        } else {
            RtcSdpType::Offer
        }
    }
}

/// A role that is written down and read again is unchanged.
pub proof fn lemma_sdp_type_round_trip(sdp_type: RtcSdpType)
    ensures
        RtcSdpType::of_text(sdp_type.text()) == sdp_type,
{
    reveal_strlit("answer");
    reveal_strlit("offer");
    reveal_strlit("pranswer");
    reveal_strlit("rollback");
    assert("answer"@.len() == 6 && "offer"@.len() == 5);
    assert("pranswer"@.len() == 8 && "rollback"@.len() == 8);
    assert("pranswer"@[0] == 'p' && "rollback"@[0] == 'r');
}

/// Different roles are written as different words.
pub proof fn lemma_sdp_type_text_is_unique(left: RtcSdpType, right: RtcSdpType)
    requires
        left.text() == right.text(),
    ensures
        left == right,
{
    lemma_sdp_type_round_trip(left);
    lemma_sdp_type_round_trip(right);
}

} // verus!
