//! Open channels: delivery, failure and connection state.

use preach::channel::collate_connected_channels;
use preach::{
    PollFuture, RtcDataChannel, RtcDataChannelConfiguration, RtcDataChannelError,
    RtcDataChannelHandlerState, RtcDataChannelReadyState, RtcPeerConnectionError, RtcPoll,
};

fn open_channel() -> (RtcDataChannel, RtcDataChannelHandlerState) {
    let mut state = RtcDataChannelHandlerState::new();
    state.on_open();
    (RtcDataChannel::new("chan".to_string(), 0), state)
}

#[test]
fn a_channel_knows_its_names() {
    let channel = RtcDataChannel::new("chan".to_string(), 17);
    assert_eq!(channel.label(), "chan");
    assert_eq!(channel.id(), 17);
}

#[test]
fn messages_are_read_in_the_order_of_arrival() {
    let (mut channel, mut state) = open_channel();
    assert_eq!(channel.receive(&mut state).unwrap(), None);
    assert!(state.on_message(b"one"));
    assert!(state.on_message(b""));
    assert_eq!(&channel.receive(&mut state).unwrap().unwrap()[..], b"one");
    assert!(state.on_message(b"three"));
    assert_eq!(&channel.receive(&mut state).unwrap().unwrap()[..], b"");
    assert_eq!(&channel.receive(&mut state).unwrap().unwrap()[..], b"three");
    assert_eq!(channel.receive(&mut state).unwrap(), None);
}

#[test]
fn messages_before_the_end_are_still_read() {
    let (mut channel, mut state) = open_channel();
    state.on_message(b"last");
    assert!(!state.on_closed());
    state.on_message(b"too late");
    assert_eq!(channel.ready_state(&state), RtcDataChannelReadyState::Closed);
    assert_eq!(&channel.receive(&mut state).unwrap().unwrap()[..], b"last");
    let error = RtcDataChannelError::Receive("The channel was closed.".to_string());
    assert_eq!(channel.receive(&mut state), Err(error.clone()));
    assert_eq!(channel.receive(&mut state), Err(error));
}

#[test]
fn an_error_is_told_with_its_reason() {
    let (mut channel, mut state) = open_channel();
    assert!(!state.on_error("broken"));
    let error = channel.receive(&mut state).unwrap_err();
    assert_eq!(
        error,
        RtcDataChannelError::Receive("The channel encountered an error: broken".to_string())
    );
    assert_eq!(
        error.to_string(),
        "An error occurred during message receiving: The channel encountered an error: broken"
    );
}

#[test]
fn a_close_event_wakes_and_closes() {
    let (mut channel, mut state) = open_channel();
    assert!(state.on_close_event("JsValue(RTCErrorEvent)".to_string()));
    assert_eq!(state.ready_state(), RtcDataChannelReadyState::Closed);
    assert_eq!(
        channel.receive(&mut state),
        Err(RtcDataChannelError::Receive("JsValue(RTCErrorEvent)".to_string()))
    );
}

#[test]
fn a_message_event_is_a_message_or_the_end() {
    let (mut channel, mut state) = open_channel();
    assert!(state.on_message_event(Ok(vec![1, 2, 3])));
    assert!(state.on_message_event(Err("JsValue(Blob)".to_string())));
    assert_eq!(&channel.receive(&mut state).unwrap().unwrap()[..], &[1, 2, 3]);
    assert_eq!(
        channel.receive(&mut state),
        Err(RtcDataChannelError::Receive("JsValue(Blob)".to_string()))
    );
}

#[test]
fn sending_hands_the_message_to_the_transport() {
    let (mut channel, _state) = open_channel();
    let mut taken = Vec::new();
    let result = channel.send(b"test msg", |message: &[u8]| {
        taken.extend_from_slice(message);
        Ok(())
    });
    assert_eq!(result, Ok(()));
    assert_eq!(&taken[..], b"test msg");
}

#[test]
fn a_failed_exchange_ends_the_channel_for_good() {
    let (mut channel, mut state) = open_channel();
    state.on_message(b"unread");
    let failure = RtcDataChannelError::Send(
        "An error occurred during message sending: no route".to_string(),
    );
    let result = channel.send(b"x", |_: &[u8]| {
        Err(RtcDataChannelError::Send("no route".to_string()))
    });
    assert_eq!(result, Err(failure.clone()));
    let mut used = false;
    let again = channel.send(b"y", |_: &[u8]| {
        used = true;
        Ok(())
    });
    assert_eq!(again, Err(failure.clone()));
    assert!(!used);
    assert_eq!(channel.receive(&mut state), Err(failure));
    assert_eq!(state.ready_state(), RtcDataChannelReadyState::Open);
    assert_eq!(channel.ready_state(&state), RtcDataChannelReadyState::Closed);
}

#[test]
fn polling_is_pending_until_something_arrives() {
    let (mut channel, mut state) = open_channel();
    assert!(matches!(channel.poll_receive(&mut state), RtcPoll::Pending));
    state.on_message(b"test msg");
    match channel.poll_receive(&mut state) {
        RtcPoll::Ready(Ok(message)) => assert_eq!(&message[..], b"test msg"),
        other => panic!("unexpected {:?}", other),
    }
    state.on_closed();
    assert!(matches!(
        channel.poll_receive(&mut state),
        RtcPoll::Ready(Err(RtcDataChannelError::Receive(_)))
    ));
}

#[test]
fn the_state_follows_the_events() {
    let mut state = RtcDataChannelHandlerState::new();
    assert_eq!(state.ready_state(), RtcDataChannelReadyState::Connecting);
    state.on_open();
    assert_eq!(state.ready_state(), RtcDataChannelReadyState::Open);
    state.on_closed();
    assert_eq!(state.ready_state(), RtcDataChannelReadyState::Closed);
    state.on_open();
    assert_eq!(state.ready_state(), RtcDataChannelReadyState::Closed);
}

#[test]
fn states_are_numbered() {
    let states = [
        RtcDataChannelReadyState::Connecting,
        RtcDataChannelReadyState::Open,
        RtcDataChannelReadyState::Closing,
        RtcDataChannelReadyState::Closed,
    ];
    for (number, state) in states.iter().enumerate() {
        assert_eq!(state.as_u8() as usize, number);
        assert_eq!(RtcDataChannelReadyState::try_from(number as u8), Ok(*state));
    }
    assert_eq!(RtcDataChannelReadyState::try_from(4), Err("Value was out-of-range"));
    assert_eq!(RtcDataChannelReadyState::try_from(255), Err("Value was out-of-range"));
}

#[test]
fn channels_are_numbered_by_their_place() {
    let mut configurations = Vec::new();
    for i in 0..65537 {
        configurations.push(RtcDataChannelConfiguration {
            label: format!("c{}", i),
            ..Default::default()
        });
    }
    let channels = collate_connected_channels(&configurations);
    assert_eq!(channels.len(), 65537);
    assert_eq!(channels[0].id(), 0);
    assert_eq!(channels[0].label(), "c0");
    assert_eq!(channels[300].id(), 300);
    assert_eq!(channels[300].label(), "c300");
    assert_eq!(channels[65535].id(), 65535);
    assert_eq!(channels[65536].id(), 0);
    assert_eq!(channels[65536].label(), "c65536");
    assert!(collate_connected_channels(&Vec::new()).is_empty());
}

#[test]
fn errors_are_shown_with_their_detail() {
    let detail = "x".to_string();
    assert_eq!(
        RtcPeerConnectionError::Creation(detail.clone()).to_string(),
        "An error occurred during connection creation: x"
    );
    assert_eq!(
        RtcPeerConnectionError::Negotiation(detail.clone()).to_string(),
        "An error occurred during channel negotiation: x"
    );
    assert_eq!(
        RtcPeerConnectionError::DataChannelMismatch(detail.clone()).to_string(),
        "The data channel configuration was not the same for both peers: x"
    );
    assert_eq!(
        RtcPeerConnectionError::IceNegotiationFailure(detail.clone()).to_string(),
        "ICE negotiation failed: x"
    );
    assert_eq!(
        RtcDataChannelError::Send(detail.clone()).to_string(),
        "An error occurred during message sending: x"
    );
    assert_eq!(
        RtcDataChannelError::Receive(detail).to_string(),
        "An error occurred during message receiving: x"
    );
}

#[test]
fn a_poll_future_is_pending_as_often_as_asked() {
    let mut future = PollFuture::new(3);
    for _ in 0..3 {
        assert_eq!(future.poll(), RtcPoll::Pending);
    }
    assert_eq!(future.poll(), RtcPoll::Ready(()));
    assert_eq!(future.poll(), RtcPoll::Ready(()));
    let mut once = PollFuture::once();
    assert_eq!(once.poll(), RtcPoll::Pending);
    assert_eq!(once.poll(), RtcPoll::Ready(()));
}
