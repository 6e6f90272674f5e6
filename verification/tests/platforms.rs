//! How connections and channels are configured on each platform, and what their events become.

use preach::native;
use preach::text::{strip_prefix, text_equals, text_less};
use preach::web;
use preach::{
    IceConfiguration, RtcDataChannelConfiguration, RtcIceServer, RtcIceTransportPolicy,
    RtcNegotiationMessage, RtcNegotiationNotification, RtcPacketLifetime, RtcPeerConnectionError,
    RtcReliabilityMode, RtcSdpType,
};

const SESSION: &str = "v=0\r\no=- 1 2 IN IP4 127.0.0.1\r\ns=-\r\nc=IN IP4 0.0.0.0\r\nt=0 0\r\n";

fn server(urls: &[&str], username: Option<&str>, credential: Option<&str>) -> RtcIceServer {
    RtcIceServer {
        urls: urls.iter().map(|url| url.to_string()).collect(),
        username: username.map(|name| name.to_string()),
        credential: credential.map(|secret| secret.to_string()),
    }
}

#[test]
fn defaults_ask_for_nothing_special() {
    assert_eq!(
        IceConfiguration::default(),
        IceConfiguration { ice_servers: vec![], ice_transport_policy: RtcIceTransportPolicy::All }
    );
    assert_eq!(RtcIceServer::default(), server(&[], None, None));
    assert_eq!(RtcIceTransportPolicy::default(), RtcIceTransportPolicy::All);
    let channel = RtcDataChannelConfiguration::default();
    assert_eq!(channel.label, "");
    assert!(channel.ordered);
    assert_eq!(channel.reliability, RtcReliabilityMode::Reliable());
    assert_eq!(channel.protocol, None);
}

#[test]
fn a_lifetime_is_not_zero() {
    assert!(RtcPacketLifetime::new(0).is_none());
    assert_eq!(RtcPacketLifetime::new(1).unwrap().get(), 1);
    assert_eq!(RtcPacketLifetime::new(65535).unwrap().get(), 65535);
}

#[test]
fn relay_urls_name_their_user() {
    assert_eq!(native::format_ice_url("h:1", None, None), "turn:h:1");
    assert_eq!(native::format_ice_url("h:1", None, Some("p")), "turn:h:1");
    assert_eq!(native::format_ice_url("h:1", Some("u"), None), "turn:u@h:1");
    assert_eq!(native::format_ice_url("h:1", Some("u"), Some("p")), "turn:u:p@h:1");
}

#[test]
fn native_connections_get_all_urls_in_order() {
    let configuration = IceConfiguration {
        ice_servers: vec![
            server(&["stun:stun.l.google.com:19302", "turn:relay:turn:1"], None, None),
            server(&[], Some("n"), Some("s")),
            server(&["turn:a", "stun:b", "turns:c"], Some("user"), Some("pass")),
            server(&["turn:"], Some("user"), None),
        ],
        ice_transport_policy: RtcIceTransportPolicy::Relay,
    };
    let config = native::RtcConfig::from(&configuration);
    assert_eq!(
        config.ice_servers,
        vec![
            "stun:stun.l.google.com:19302",
            "turn:relay:turn:1",
            "turn:user:pass@a",
            "stun:b",
            "turns:c",
            "turn:user@",
        ]
    );
    assert_eq!(config.ice_transport_policy, RtcIceTransportPolicy::Relay);
}

#[test]
fn native_channels_deliver_as_configured() {
    let mut configuration = RtcDataChannelConfiguration::default();
    let init = native::DataChannelInit::from(&configuration);
    assert_eq!(
        init,
        native::DataChannelInit {
            protocol: "".to_string(),
            reliability: native::Reliability {
                unordered: false,
                unreliable: false,
                max_packet_life_time: 0,
                max_retransmits: 0,
            },
            negotiated: true,
            manual_stream: true,
            stream: 0,
        }
    );
    assert_eq!(init.stream(9).stream, 9);
    configuration.ordered = false;
    configuration.protocol = Some("json".to_string());
    configuration.reliability = RtcReliabilityMode::MaxRetransmits(0);
    let init = native::DataChannelInit::from(&configuration);
    assert_eq!(init.protocol, "json");
    assert_eq!(
        init.reliability,
        native::Reliability {
            unordered: true,
            unreliable: true,
            max_packet_life_time: 0,
            max_retransmits: 0,
        }
    );
    configuration.reliability =
        RtcReliabilityMode::MaxPacketLifetime(RtcPacketLifetime::new(250).unwrap());
    let init = native::DataChannelInit::from(&configuration);
    assert!(init.reliability.unreliable);
    assert_eq!(init.reliability.max_packet_life_time, 250);
    assert_eq!(init.reliability.max_retransmits, 0);
}

#[test]
fn web_channels_deliver_as_configured() {
    let mut configuration = RtcDataChannelConfiguration::default();
    assert_eq!(
        web::RtcDataChannelInit::from(&configuration),
        web::RtcDataChannelInit {
            ordered: true,
            negotiated: true,
            protocol: None,
            max_packet_life_time: None,
            max_retransmits: None,
            id: 0,
        }
    );
    configuration.ordered = false;
    configuration.protocol = Some("json".to_string());
    configuration.reliability = RtcReliabilityMode::MaxRetransmits(3);
    let init = web::RtcDataChannelInit::from(&configuration).id(5);
    assert_eq!(
        init,
        web::RtcDataChannelInit {
            ordered: false,
            negotiated: true,
            protocol: Some("json".to_string()),
            max_packet_life_time: None,
            max_retransmits: Some(3),
            id: 5,
        }
    );
    configuration.reliability =
        RtcReliabilityMode::MaxPacketLifetime(RtcPacketLifetime::new(40).unwrap());
    let init = web::RtcDataChannelInit::from(&configuration);
    assert_eq!(init.max_packet_life_time, Some(40));
    assert_eq!(init.max_retransmits, None);
}

#[test]
fn both_platforms_number_channels_alike() {
    let configurations = vec![
        RtcDataChannelConfiguration { label: "a".to_string(), ..Default::default() },
        RtcDataChannelConfiguration { label: "b".to_string(), ..Default::default() },
    ];
    let native = native::create_channels(&configurations);
    let web = web::create_channels(&configurations);
    assert_eq!(native.len(), 2);
    assert_eq!(web.len(), 2);
    for i in 0..2 {
        match (&native[i], &web[i]) {
            (
                native::RtcOperation::CreateChannel(left, native),
                web::RtcOperation::CreateChannel(right, web),
            ) => {
                assert_eq!(left, &configurations[i].label);
                assert_eq!(right, &configurations[i].label);
                assert_eq!(native.stream as usize, i);
                assert_eq!(web.id as usize, i);
            }
            other => panic!("unexpected {:?}", other),
        }
    }
}

#[test]
fn roles_are_words_on_the_wire() {
    let roles = [
        (RtcSdpType::Answer, "answer"),
        (RtcSdpType::Offer, "offer"),
        (RtcSdpType::Pranswer, "pranswer"),
        (RtcSdpType::Rollback, "rollback"),
    ];
    for (role, word) in roles {
        assert_eq!(role.as_str(), word);
        assert_eq!(RtcSdpType::from_text(word), role);
    }
    assert_eq!(RtcSdpType::from_text("Answer"), RtcSdpType::Offer);
    assert_eq!(RtcSdpType::from_text(""), RtcSdpType::Offer);
}

#[test]
fn session_descriptions_are_parsed_and_shown() {
    let session = preach::sdp::parse_session(SESSION).unwrap();
    match native::on_description(&session, RtcSdpType::Offer) {
        RtcNegotiationNotification::SendMessage(
            RtcNegotiationMessage::RemoteSessionDescription(description),
        ) => {
            assert_eq!(description.sdp, SESSION);
            assert_eq!(description.sdp_type, "offer");
        }
        other => panic!("unexpected {:?}", other),
    }
    assert_eq!(
        preach::sdp::parse_session("").unwrap_err(),
        "Line error: Parsing error: empty SDP in line(0): "
    );
}

#[test]
fn native_events_become_notifications() {
    match native::on_candidate("candidate:1".to_string(), "0".to_string()) {
        RtcNegotiationNotification::SendMessage(RtcNegotiationMessage::RemoteCandidate(told)) => {
            assert_eq!(told.candidate, "candidate:1");
            assert_eq!(told.sdp_mid, "0");
        }
        other => panic!("unexpected {:?}", other),
    }
    match native::on_connection_state_change(native::ConnectionState::Failed) {
        Some(RtcNegotiationNotification::Failed(error)) => assert_eq!(
            error,
            RtcPeerConnectionError::IceNegotiationFailure(
                "ICE protocol could not find a valid candidate pair.".to_string()
            )
        ),
        other => panic!("unexpected {:?}", other),
    }
    for state in [
        native::ConnectionState::New,
        native::ConnectionState::Connecting,
        native::ConnectionState::Connected,
        native::ConnectionState::Disconnected,
        native::ConnectionState::Closed,
    ] {
        assert!(native::on_connection_state_change(state).is_none());
    }
    match native::data_channel_handler() {
        RtcNegotiationNotification::Failed(error) => assert_eq!(
            error,
            RtcPeerConnectionError::DataChannelMismatch(
                "The remote peer attempted to open an unsolicited data channel.".to_string()
            )
        ),
        other => panic!("unexpected {:?}", other),
    }
}

#[test]
fn web_events_become_notifications() {
    let cases = [
        (Some(("c".to_string(), Some("m".to_string()))), "c", "m"),
        (Some(("c".to_string(), None)), "c", ""),
        (None, "", ""),
    ];
    for (candidate, name, mid) in cases {
        match web::on_ice_candidate(candidate) {
            RtcNegotiationNotification::SendMessage(
                RtcNegotiationMessage::RemoteCandidate(told),
            ) => {
                assert_eq!(told.candidate, name);
                assert_eq!(told.sdp_mid, mid);
            }
            other => panic!("unexpected {:?}", other),
        }
    }
    assert!(web::on_connection_state_change("connected").is_none());
    assert!(web::on_connection_state_change("").is_none());
    match web::on_connection_state_change("failed") {
        Some(RtcNegotiationNotification::Failed(error)) => assert_eq!(
            error,
            RtcPeerConnectionError::IceNegotiationFailure(
                "ICE protocol could not find a valid candidate pair.".to_string()
            )
        ),
        other => panic!("unexpected {:?}", other),
    }
}

#[test]
fn a_browser_offer_is_described() {
    let offer = web::create_offer(Ok((Some(RtcSdpType::Offer), "v=0".to_string()))).unwrap();
    assert_eq!(offer.sdp, "v=0");
    assert_eq!(offer.sdp_type, "offer");
    assert_eq!(
        web::create_offer(Ok((None, "v=0".to_string()))).unwrap_err(),
        RtcPeerConnectionError::Negotiation("Unexpected SDP type".to_string())
    );
    assert_eq!(
        web::create_offer(Err("JsValue(x)".to_string())).unwrap_err(),
        RtcPeerConnectionError::Negotiation("JsValue(x)".to_string())
    );
}

#[test]
fn messages_of_other_threads_wait_in_order() {
    let mut outbox = web::RtcOutbox::new();
    assert_eq!(outbox.next(), None);
    assert_eq!(outbox.dispatch(b"now", true), web::RtcDispatch::Immediate);
    assert_eq!(outbox.next(), None);
    assert_eq!(outbox.dispatch(b"one", false), web::RtcDispatch::Deferred);
    assert_eq!(outbox.dispatch(b"two", false), web::RtcDispatch::Deferred);
    assert_eq!(outbox.next(), Some(b"one".to_vec()));
    assert_eq!(outbox.next(), Some(b"two".to_vec()));
    assert_eq!(outbox.next(), None);
}

#[test]
fn texts_are_ordered_as_strings_are() {
    let texts = ["", "a", "ab", "b", "offer", "offer ", "\u{7f}", "\u{80}", "\u{ffff}", "\u{10000}"];
    for left in texts {
        for right in texts {
            assert_eq!(text_less(left, right), left < right);
            assert_eq!(text_equals(left, right), left == right);
            assert_eq!(strip_prefix(left, right), left.strip_prefix(right));
        }
    }
}
