//! Negotiations, driven with pretended connections.

use preach::native;
use preach::web;
use preach::{
    IceConfiguration, RtcAction, RtcCandidateMode, RtcConfiguration, RtcDataChannelConfiguration,
    RtcIceCandidate, RtcIceServer, RtcIceTransportPolicy, RtcNegotiationMessage,
    RtcNegotiationNotification, RtcPeerConnectionError, RtcPhase, RtcSdpType,
    RtcSessionDescription,
};
use std::collections::VecDeque;

const SESSION: &str = "v=0\r\no=- 1 2 IN IP4 127.0.0.1\r\ns=-\r\nc=IN IP4 0.0.0.0\r\nt=0 0\r\n";

fn ice_configuration() -> IceConfiguration {
    IceConfiguration {
        ice_servers: vec![RtcIceServer {
            urls: vec!["stun:stun.l.google.com:19302".to_string()],
            ..Default::default()
        }],
        ice_transport_policy: RtcIceTransportPolicy::All,
    }
}

fn channels(labels: &[&str]) -> Vec<RtcDataChannelConfiguration> {
    labels
        .iter()
        .map(|label| RtcDataChannelConfiguration { label: label.to_string(), ..Default::default() })
        .collect()
}

fn candidate(name: &str) -> RtcNegotiationMessage {
    RtcNegotiationMessage::RemoteCandidate(RtcIceCandidate {
        candidate: name.to_string(),
        sdp_mid: "0".to_string(),
    })
}

fn description(sdp_type: &str, sdp: &str) -> RtcNegotiationMessage {
    RtcNegotiationMessage::RemoteSessionDescription(RtcSessionDescription {
        sdp: sdp.to_string(),
        sdp_type: sdp_type.to_string(),
    })
}

/// A native connector that has been set up and waits for messages.
fn native_receiving(mode: RtcCandidateMode) -> native::RtcPeerConnector {
    let configuration = RtcConfiguration { ice_configuration: ice_configuration(), mode };
    let (mut connector, action) =
        native::RtcPeerConnector::connect(&configuration, &channels(&["chan"]));
    match action {
        RtcAction::Perform(native::RtcOperation::CreateConnection(config)) => {
            assert_eq!(config.ice_servers, vec!["stun:stun.l.google.com:19302"]);
        }
        other => panic!("unexpected {:?}", other),
    }
    match connector.negotiation.performed(Ok(())) {
        RtcAction::Perform(native::RtcOperation::CreateChannel(label, init)) => {
            assert_eq!(label, "chan");
            assert_eq!(init.stream, 0);
        }
        other => panic!("unexpected {:?}", other),
    }
    assert!(matches!(connector.negotiation.performed(Ok(())), RtcAction::CountOpenChannels));
    assert!(matches!(connector.negotiation.open_channels(0), RtcAction::PollNotifications));
    assert!(matches!(connector.negotiation.notified(None), RtcAction::ReceiveMessages));
    connector
}

/// A connector in a browser that has made an offer and waits for messages.
fn web_receiving(offer: &str) -> web::RtcPeerConnector {
    let (mut connector, action) =
        web::RtcPeerConnector::connect(ice_configuration(), &channels(&["chan"]));
    assert!(matches!(action, RtcAction::Perform(web::RtcOperation::CreateConnection(_))));
    assert!(matches!(
        connector.negotiation.performed(Ok(())),
        RtcAction::Perform(web::RtcOperation::CreateChannel(_, _))
    ));
    assert!(matches!(
        connector.negotiation.performed(Ok(())),
        RtcAction::Perform(web::RtcOperation::CreateOffer)
    ));
    let offer = web::create_offer(Ok((Some(RtcSdpType::Offer), offer.to_string())));
    match connector.offered(offer) {
        RtcAction::Perform(web::RtcOperation::SendMessage(
            RtcNegotiationMessage::RemoteSessionDescription(told),
        )) => assert_eq!(told.sdp_type, "offer"),
        other => panic!("unexpected {:?}", other),
    }
    assert!(matches!(connector.negotiation.sent(Ok(())), RtcAction::CountOpenChannels));
    assert!(matches!(connector.negotiation.open_channels(0), RtcAction::PollNotifications));
    assert!(matches!(connector.negotiation.notified(None), RtcAction::ReceiveMessages));
    connector
}

#[test]
fn no_channels_are_open_at_once() {
    let configuration = RtcConfiguration {
        ice_configuration: IceConfiguration::default(),
        mode: RtcCandidateMode::Host,
    };
    let (mut connector, _) = native::RtcPeerConnector::connect(&configuration, &Vec::new());
    assert!(matches!(connector.negotiation.performed(Ok(())), RtcAction::CountOpenChannels));
    assert!(matches!(connector.negotiation.open_channels(0), RtcAction::Finish(Ok(()))));
    assert_eq!(connector.negotiation.phase, RtcPhase::Finished);
}

#[test]
fn failures_of_the_set_up_are_creation_errors() {
    let configuration = RtcConfiguration {
        ice_configuration: IceConfiguration::default(),
        mode: RtcCandidateMode::Host,
    };
    let (mut connector, _) =
        native::RtcPeerConnector::connect(&configuration, &channels(&["a", "b"]));
    connector.negotiation.performed(Ok(()));
    match connector.negotiation.performed(Err("bad label".to_string())) {
        RtcAction::Finish(Err(error)) => {
            assert_eq!(error, RtcPeerConnectionError::Creation("bad label".to_string()));
        }
        other => panic!("unexpected {:?}", other),
    }
}

#[test]
fn candidates_wait_for_the_remote_description() {
    let mut connector = native_receiving(RtcCandidateMode::Client);
    let messages =
        vec![candidate("one"), candidate("two"), description("offer", SESSION), candidate("three")];
    let query = connector.negotiation.received(Ok(messages));
    assert!(matches!(query, RtcAction::QueryRemoteDescription));
    assert!(matches!(connector.remote_description(false), RtcAction::QueryRemoteDescription));
    assert!(matches!(connector.remote_description(false), RtcAction::QueryRemoteDescription));
    assert_eq!(connector.negotiation.candidate_buffer.len(), 2);
    match connector.remote_description(false) {
        RtcAction::Perform(native::RtcOperation::SetRemoteDescription(remote)) => {
            assert_eq!(remote.sdp_type, RtcSdpType::Offer);
            assert_eq!(remote.sdp.to_string(), SESSION);
        }
        other => panic!("unexpected {:?}", other),
    }
    for name in ["one", "two"] {
        match connector.negotiation.performed(Ok(())) {
            RtcAction::Perform(native::RtcOperation::AddRemoteCandidate(told)) => {
                assert_eq!(told.candidate, name);
            }
            other => panic!("unexpected {:?}", other),
        }
    }
    let query = connector.negotiation.performed(Ok(()));
    assert!(matches!(query, RtcAction::QueryRemoteDescription));
    match connector.remote_description(true) {
        RtcAction::Perform(native::RtcOperation::AddRemoteCandidate(told)) => {
            assert_eq!(told.candidate, "three");
        }
        other => panic!("unexpected {:?}", other),
    }
    assert!(matches!(connector.negotiation.performed(Ok(())), RtcAction::Yield));
    assert!(matches!(connector.negotiation.yielded(), RtcAction::CountOpenChannels));
    assert!(matches!(connector.negotiation.open_channels(1), RtcAction::Finish(Ok(()))));
}

#[test]
fn a_host_ignores_an_offer_and_follows_an_answer() {
    let mut connector = native_receiving(RtcCandidateMode::Host);
    let messages =
        vec![candidate("one"), description("offer", SESSION), description("answer", SESSION)];
    connector.negotiation.received(Ok(messages));
    assert!(matches!(connector.remote_description(false), RtcAction::QueryRemoteDescription));
    assert!(matches!(connector.remote_description(false), RtcAction::QueryRemoteDescription));
    assert_eq!(connector.negotiation.candidate_buffer.len(), 1);
    match connector.remote_description(false) {
        RtcAction::Perform(native::RtcOperation::SetRemoteDescription(remote)) => {
            assert_eq!(remote.sdp_type, RtcSdpType::Answer);
        }
        other => panic!("unexpected {:?}", other),
    }
    assert!(matches!(
        connector.negotiation.performed(Ok(())),
        RtcAction::Perform(native::RtcOperation::AddRemoteCandidate(_))
    ));
}

#[test]
fn a_second_description_is_ignored() {
    let mut connector = native_receiving(RtcCandidateMode::Client);
    connector.negotiation.received(Ok(vec![description("answer", "not even parsed")]));
    assert!(matches!(connector.remote_description(true), RtcAction::Yield));
}

#[test]
fn a_description_that_cannot_be_parsed_ends_the_negotiation() {
    let mut connector = native_receiving(RtcCandidateMode::Client);
    connector.negotiation.received(Ok(vec![description("answer", "")]));
    match connector.remote_description(false) {
        RtcAction::Finish(Err(error)) => assert_eq!(
            error,
            RtcPeerConnectionError::Negotiation(
                "Line error: Parsing error: empty SDP in line(0): ".to_string()
            )
        ),
        other => panic!("unexpected {:?}", other),
    }
}

#[test]
fn the_parsed_description_decides() {
    let mut candidates = vec![RtcIceCandidate {
        candidate: "one".to_string(),
        sdp_mid: "0".to_string(),
    }];
    let error = native::receive_session_description(
        RtcCandidateMode::Client,
        &mut candidates,
        Err("reason".to_string()),
        RtcSdpType::Answer,
    )
    .unwrap_err();
    assert_eq!(error, RtcPeerConnectionError::Negotiation("reason".to_string()));
    assert_eq!(candidates.len(), 1);
    let session = preach::sdp::parse_session(SESSION).unwrap();
    let ignored = native::receive_session_description(
        RtcCandidateMode::Host,
        &mut candidates,
        Ok(session),
        RtcSdpType::Offer,
    )
    .unwrap();
    assert!(ignored.is_empty());
    assert_eq!(candidates.len(), 1);
    let session = preach::sdp::parse_session(SESSION).unwrap();
    let operations = native::receive_session_description(
        RtcCandidateMode::Client,
        &mut candidates,
        Ok(session),
        RtcSdpType::Offer,
    )
    .unwrap();
    assert_eq!(operations.len(), 2);
    assert!(matches!(operations[0], native::RtcOperation::SetRemoteDescription(_)));
    assert!(matches!(operations[1], native::RtcOperation::AddRemoteCandidate(_)));
    assert!(candidates.is_empty());
}

#[test]
fn later_failures_are_reported_as_they_are() {
    let mut connector = native_receiving(RtcCandidateMode::Client);
    connector.negotiation.received(Ok(vec![candidate("one")]));
    connector.remote_description(true);
    match connector.negotiation.performed(Err("bad candidate".to_string())) {
        RtcAction::Finish(Err(error)) => {
            assert_eq!(error, RtcPeerConnectionError::Negotiation("bad candidate".to_string()));
        }
        other => panic!("unexpected {:?}", other),
    }

    let failure = RtcPeerConnectionError::IceNegotiationFailure("signaling".to_string());
    let mut connector = native_receiving(RtcCandidateMode::Client);
    match connector.negotiation.received(Err(failure.clone())) {
        RtcAction::Finish(Err(error)) => assert_eq!(error, failure),
        other => panic!("unexpected {:?}", other),
    }

    let mut connector = native_receiving(RtcCandidateMode::Client);
    assert!(matches!(connector.negotiation.received(Ok(vec![])), RtcAction::Yield));
    connector.negotiation.yielded();
    connector.negotiation.open_channels(0);
    let notification = RtcNegotiationNotification::SendMessage(candidate("mine"));
    match connector.negotiation.notified(Some(notification)) {
        RtcAction::SendMessage(RtcNegotiationMessage::RemoteCandidate(told)) => {
            assert_eq!(told.candidate, "mine");
        }
        other => panic!("unexpected {:?}", other),
    }
    match connector.negotiation.sent(Err(failure.clone())) {
        RtcAction::Finish(Err(error)) => assert_eq!(error, failure),
        other => panic!("unexpected {:?}", other),
    }

    let mut connector = native_receiving(RtcCandidateMode::Client);
    connector.negotiation.received(Ok(vec![]));
    connector.negotiation.yielded();
    connector.negotiation.open_channels(0);
    match connector.negotiation.notified(Some(native::data_channel_handler())) {
        RtcAction::Finish(Err(error)) => assert_eq!(
            error.to_string(),
            "The data channel configuration was not the same for both peers: \
             The remote peer attempted to open an unsolicited data channel."
        ),
        other => panic!("unexpected {:?}", other),
    }
}

#[test]
fn a_failed_offer_ends_the_negotiation() {
    let (mut connector, _) = web::RtcPeerConnector::connect(ice_configuration(), &Vec::new());
    connector.negotiation.performed(Ok(()));
    match connector.offered(web::create_offer(Err("no".to_string()))) {
        RtcAction::Finish(Err(error)) => {
            assert_eq!(error, RtcPeerConnectionError::Negotiation("no".to_string()));
        }
        other => panic!("unexpected {:?}", other),
    }
}

#[test]
fn the_smaller_offer_gives_way() {
    let mut small = web_receiving("aaa");
    small.negotiation.received(Ok(vec![candidate("one"), description("offer", "bbb")]));
    assert!(matches!(small.remote_description(false), RtcAction::QueryRemoteDescription));
    match small.remote_description(false) {
        RtcAction::Perform(web::RtcOperation::SetRemoteDescription(remote)) => {
            assert_eq!(remote.sdp, "bbb");
            assert_eq!(remote.sdp_type, "offer");
        }
        other => panic!("unexpected {:?}", other),
    }
    assert!(matches!(
        small.negotiation.performed(Ok(())),
        RtcAction::Perform(web::RtcOperation::AddRemoteCandidate(_))
    ));
    assert!(matches!(
        small.negotiation.performed(Ok(())),
        RtcAction::Perform(web::RtcOperation::CreateAnswer)
    ));
    match small.answered(Ok("answer to bbb".to_string())) {
        RtcAction::Perform(web::RtcOperation::SetLocalDescription(RtcSdpType::Answer, sdp)) => {
            assert_eq!(sdp, "answer to bbb");
        }
        other => panic!("unexpected {:?}", other),
    }
    match small.negotiation.performed(Ok(())) {
        RtcAction::Perform(web::RtcOperation::SendMessage(
            RtcNegotiationMessage::RemoteSessionDescription(told),
        )) => {
            assert_eq!(told.sdp, "answer to bbb");
            assert_eq!(told.sdp_type, "answer");
        }
        other => panic!("unexpected {:?}", other),
    }
    assert!(matches!(small.negotiation.sent(Ok(())), RtcAction::Yield));

    let mut large = web_receiving("bbb");
    large.negotiation.received(Ok(vec![
        description("offer", "aaa"),
        description("answer", "answer to bbb"),
    ]));
    assert!(matches!(large.remote_description(false), RtcAction::QueryRemoteDescription));
    match large.remote_description(false) {
        RtcAction::Perform(web::RtcOperation::SetLocalDescription(RtcSdpType::Offer, sdp)) => {
            assert_eq!(sdp, "bbb");
        }
        other => panic!("unexpected {:?}", other),
    }
    match large.negotiation.performed(Ok(())) {
        RtcAction::Perform(web::RtcOperation::SetRemoteDescription(remote)) => {
            assert_eq!(remote.sdp, "answer to bbb");
        }
        other => panic!("unexpected {:?}", other),
    }
    assert!(matches!(large.negotiation.performed(Ok(())), RtcAction::Yield));
}

#[test]
fn equal_offers_give_no_way() {
    let mut connector = web_receiving("same");
    connector.negotiation.received(Ok(vec![description("offer", "same")]));
    assert!(matches!(connector.remote_description(false), RtcAction::Yield));
}

#[test]
fn a_failed_answer_ends_the_negotiation() {
    let mut connector = web_receiving("aaa");
    connector.negotiation.received(Ok(vec![description("offer", "bbb")]));
    connector.remote_description(false);
    connector.negotiation.performed(Ok(()));
    match connector.answered(Err("no answer".to_string())) {
        RtcAction::Finish(Err(error)) => {
            assert_eq!(error, RtcPeerConnectionError::Negotiation("no answer".to_string()));
        }
        other => panic!("unexpected {:?}", other),
    }
}

/// A pretended browser: it is connected as soon as it has both descriptions.
struct Browser {
    connector: web::RtcPeerConnector,
    action: Option<RtcAction<web::RtcOperation>>,
    offer: String,
    local: Option<String>,
    remote: Option<String>,
    applied: Vec<String>,
    notifications: VecDeque<RtcNegotiationNotification>,
    created: usize,
}

impl Browser {
    fn new(offer: &str, candidates: &[&str]) -> Self {
        let (connector, action) =
            web::RtcPeerConnector::connect(ice_configuration(), &channels(&["chan"]));
        let mut notifications = VecDeque::new();
        for name in candidates {
            notifications.push_back(web::on_ice_candidate(Some((name.to_string(), None))));
        }
        notifications.push_back(web::on_ice_candidate(None));
        Browser {
            connector,
            action: Some(action),
            offer: offer.to_string(),
            local: None,
            remote: None,
            applied: Vec::new(),
            notifications,
            created: 0,
        }
    }

    /// Performs the next action. Tells the outcome of the negotiation when it has ended.
    fn step(
        &mut self,
        inbox: &mut VecDeque<RtcNegotiationMessage>,
        outbox: &mut VecDeque<RtcNegotiationMessage>,
    ) -> Option<Result<(), RtcPeerConnectionError>> {
        let next = match self.action.take().unwrap() {
            RtcAction::Finish(result) => {
                self.action = Some(RtcAction::Finish(result.clone()));
                return Some(result);
            }
            RtcAction::Perform(operation) => self.perform(operation, outbox),
            RtcAction::CountOpenChannels => {
                let open = if self.local.is_some() && self.remote.is_some() {
                    self.created
                } else {
                    0
                };
                self.connector.negotiation.open_channels(open)
            }
            RtcAction::PollNotifications => {
                let notification = self.notifications.pop_front();
                self.connector.negotiation.notified(notification)
            }
            RtcAction::SendMessage(message) => {
                outbox.push_back(message);
                self.connector.negotiation.sent(Ok(()))
            }
            RtcAction::ReceiveMessages => {
                self.connector.negotiation.received(Ok(inbox.pop_front().into_iter().collect()))
            }
            RtcAction::QueryRemoteDescription => {
                self.connector.remote_description(self.remote.is_some())
            }
            RtcAction::Yield => self.connector.negotiation.yielded(),
        };
        self.action = Some(next);
        None
    }

    fn perform(
        &mut self,
        operation: web::RtcOperation,
        outbox: &mut VecDeque<RtcNegotiationMessage>,
    ) -> RtcAction<web::RtcOperation> {
        match operation {
            web::RtcOperation::CreateConnection(_) => {}
            web::RtcOperation::CreateChannel(_, _) => self.created += 1,
            web::RtcOperation::CreateOffer => {
                let offer = web::create_offer(Ok((Some(RtcSdpType::Offer), self.offer.clone())));
                return self.connector.offered(offer);
            }
            web::RtcOperation::SetLocalDescription(_, sdp) => self.local = Some(sdp),
            web::RtcOperation::SetRemoteDescription(remote) => {
                assert!(self.remote.is_none());
                self.remote = Some(remote.sdp);
            }
            web::RtcOperation::AddRemoteCandidate(candidate) => {
                assert!(self.remote.is_some());
                self.applied.push(candidate.candidate);
            }
            web::RtcOperation::CreateAnswer => {
                let sdp = format!("answer to {}", self.remote.as_ref().unwrap());
                return self.connector.answered(Ok(sdp));
            }
            web::RtcOperation::SendMessage(message) => {
                outbox.push_back(message);
                return self.connector.negotiation.sent(Ok(()));
            }
        }
        self.connector.negotiation.performed(Ok(()))
    }
}

#[test]
fn two_peers_connect_and_exchange_a_message() {
    let mut left = Browser::new("offer of left", &["l1", "l2"]);
    let mut right = Browser::new("offer of right", &["r1"]);
    let mut to_left = VecDeque::new();
    let mut to_right = VecDeque::new();
    let mut done = (false, false);
    for _ in 0..1000 {
        if let Some(result) = left.step(&mut to_left, &mut to_right) {
            assert_eq!(result, Ok(()), "An error occurred during channel creation.");
            done.0 = true;
        }
        if let Some(result) = right.step(&mut to_right, &mut to_left) {
            assert_eq!(result, Ok(()), "An error occurred during channel creation.");
            done.1 = true;
        }
    }
    assert_eq!(done, (true, true));
    assert_eq!(left.remote.as_deref(), Some("offer of right"));
    assert_eq!(left.local.as_deref(), Some("answer to offer of right"));
    assert_eq!(right.remote.as_deref(), Some("answer to offer of right"));
    assert_eq!(right.local.as_deref(), Some("offer of right"));
    assert!(["l1".to_string(), "l2".to_string(), "".to_string()].starts_with(&right.applied[..]));
    assert!(["r1".to_string(), "".to_string()].starts_with(&left.applied[..]));

    let configurations = channels(&["chan"]);
    let mut sender = preach::channel::collate_connected_channels(&configurations);
    let mut receiver = preach::channel::collate_connected_channels(&configurations);
    let mut state = preach::RtcDataChannelHandlerState::new();
    state.on_open();
    let msg = b"test msg";
    let sent = sender[0].send(&msg[..], |message: &[u8]| {
        state.on_message(message);
        Ok(())
    });
    assert!(sent.is_ok(), "An error occurred during message sending.");
    let res = receiver[0].receive(&mut state).unwrap().unwrap();
    assert!(&res[..] == &msg[..], "Expected {res:?} but got {msg:?}");
}
