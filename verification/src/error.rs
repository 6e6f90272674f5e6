//! The errors of peer connections and of data channels.

use vstd::prelude::*;
use vstd::string::*;

verus! {

/// Describes an error that occurred while attempting to establish a peer connection.
#[derive(Debug, PartialEq)]
pub enum RtcPeerConnectionError {
    /// The connection could not be created.
    Creation(String),
    /// An issue happened during negotiation.
    Negotiation(String),
    /// The peers did not create the same data channels with the same configurations.
    DataChannelMismatch(String),
    /// The peers could not negotiate over ICE.
    IceNegotiationFailure(String),
}

/// Describes an error that occurred with an active data channel.
#[derive(Debug, PartialEq)]
pub enum RtcDataChannelError {
    /// A message could not be sent.
    Send(String),
    /// Messages could not be received.
    Receive(String),
}

impl RtcPeerConnectionError {
    /// The text by which the error is shown.
    pub open spec fn display(self) -> Seq<char> {
        match self {
            RtcPeerConnectionError::Creation(x) => "An error occurred during connection creation: "@
                + x@,
            RtcPeerConnectionError::Negotiation(x) =>
                "An error occurred during channel negotiation: "@ + x@,
            RtcPeerConnectionError::DataChannelMismatch(x) =>
                "The data channel configuration was not the same for both peers: "@ + x@,
            RtcPeerConnectionError::IceNegotiationFailure(x) => "ICE negotiation failed: "@ + x@,
        }
    }

    /// Shows the error as a text: what went wrong in general, then the detail.
    pub fn to_string(&self) -> (text: String)
        ensures
            text@ == self.display(),
    {
        match self {
            RtcPeerConnectionError::Creation(x) =>
                "An error occurred during connection creation: ".to_string().concat(x.as_str()),
            RtcPeerConnectionError::Negotiation(x) =>
                "An error occurred during channel negotiation: ".to_string().concat(x.as_str()),
            RtcPeerConnectionError::DataChannelMismatch(x) =>
                "The data channel configuration was not the same for both peers: ".to_string().concat(
                x.as_str(),
            ),
            RtcPeerConnectionError::IceNegotiationFailure(x) =>
                "ICE negotiation failed: ".to_string().concat(x.as_str()),
        }
    }
}

impl Clone for RtcPeerConnectionError {
    fn clone(&self) -> (copy: Self)
        ensures
            copy == *self,
    {
        match self {
            RtcPeerConnectionError::Creation(x) => RtcPeerConnectionError::Creation(x.clone()),
            RtcPeerConnectionError::Negotiation(x) => RtcPeerConnectionError::Negotiation(
                x.clone(),
            ),
            RtcPeerConnectionError::DataChannelMismatch(x) =>
                RtcPeerConnectionError::DataChannelMismatch(x.clone()),
            RtcPeerConnectionError::IceNegotiationFailure(x) =>
                RtcPeerConnectionError::IceNegotiationFailure(x.clone()),
        }
    }
}

/// An error of a data channel, with its detail as a sequence of characters.
pub enum DataChannelErrorView {
    Send(Seq<char>),
    Receive(Seq<char>),
}

impl View for RtcDataChannelError {
    type V = DataChannelErrorView;

    open spec fn view(&self) -> DataChannelErrorView {
        match self {
            RtcDataChannelError::Send(x) => DataChannelErrorView::Send(x@),
            RtcDataChannelError::Receive(x) => DataChannelErrorView::Receive(x@),
        }
    }
}

impl DataChannelErrorView {
    /// The text by which the error is shown.
    pub open spec fn display(self) -> Seq<char> {
        match self {
            DataChannelErrorView::Send(x) => "An error occurred during message sending: "@ + x,
            DataChannelErrorView::Receive(x) => "An error occurred during message receiving: "@ + x,
        }
    }
}

impl RtcDataChannelError {
    /// Shows the error as a text: what went wrong in general, then the detail.
    pub fn to_string(&self) -> (text: String)
        ensures
            text@ == self@.display(),
    {
        match self {
            RtcDataChannelError::Send(x) =>
                "An error occurred during message sending: ".to_string().concat(x.as_str()),
            RtcDataChannelError::Receive(x) =>
                "An error occurred during message receiving: ".to_string().concat(x.as_str()),
        }
    }
}

impl Clone for RtcDataChannelError {
    fn clone(&self) -> (copy: Self)
        ensures
            copy == *self,
    {
        match self {
            RtcDataChannelError::Send(x) => RtcDataChannelError::Send(x.clone()),
            RtcDataChannelError::Receive(x) => RtcDataChannelError::Receive(x.clone()),
        }
    }
}

} // verus!
