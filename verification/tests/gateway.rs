use std::io::Write;

use flate2::write::ZlibEncoder;
use flate2::Compression;

use hikaru::error::Error as DecodeError;
use hikaru::gateway::close_code::{close_code, GatewayErrorResolve};
use hikaru::gateway::gatewayopcode::{GatewayOpcode, Hello};
use hikaru::gateway::op_code::GatewayPayload;
use hikaru::gateway::shardconnection::{
    close_error, CloseKind, GatewayState, IncomingMessage, Received, Shard, ShardAction,
    DEFAULT_HEARTBEAT_INTERVAL,
};
use hikaru::util::error::Error;

fn parsed(text: &str) -> serde_json::Value {
    serde_json::from_str(text).unwrap()
}

fn no_hello() -> Result<Hello, DecodeError> {
    Err(DecodeError::Text("no hello".to_string()))
}

fn decoded(op: u64) -> GatewayOpcode {
    GatewayOpcode::decode(Some(op), no_hello()).unwrap()
}

#[test]
fn decode_known_opcodes() {
    assert_eq!(decoded(0), GatewayOpcode::Dispatch());
    assert_eq!(decoded(1), GatewayOpcode::Heartbeat());
    assert_eq!(decoded(2), GatewayOpcode::Identify());
    assert_eq!(decoded(3), GatewayOpcode::PresenceUpdate());
    assert_eq!(decoded(4), GatewayOpcode::VoiceStateUpdate());
    assert_eq!(decoded(6), GatewayOpcode::Resume());
    assert_eq!(decoded(7), GatewayOpcode::Reconnect());
    assert_eq!(decoded(8), GatewayOpcode::RequestGuildMembers());
    assert_eq!(decoded(9), GatewayOpcode::InvalidSession());
    assert_eq!(decoded(11), GatewayOpcode::HeartbeatACK());
}

#[test]
fn decode_hello() {
    let r = GatewayOpcode::decode(Some(10), Ok(Hello { heartbeat_interval: 41250 }));
    assert_eq!(r.unwrap(), GatewayOpcode::Hello(Hello { heartbeat_interval: 41250 }));
}

#[test]
fn decode_hello_with_bad_data() {
    let bad = serde_json::from_str::<serde_json::Value>("{").unwrap_err();
    let r = GatewayOpcode::decode(Some(10), Err(DecodeError::SerdeError(bad)));
    assert!(matches!(r, Err(DecodeError::SerdeError(_))));
}

#[test]
fn decode_rejects_unknown_and_missing_opcodes() {
    for op in [Some(5), Some(12), Some(u64::MAX), None] {
        match GatewayOpcode::decode(op, no_hello()) {
            Err(DecodeError::Text(t)) => assert_eq!(t, "Invalid gateway request, opcode not a number"),
            other => panic!("unexpected {:?}", other),
        }
    }
}

#[test]
fn sent_payloads_decode_as_their_kind() {
    let shard = Shard::new("Bot abc", (0, 1));
    let heartbeat = shard.heartbeat_payload();
    assert_eq!(heartbeat.opcode(), 1);
    assert_eq!(decoded(heartbeat.opcode()), GatewayOpcode::Heartbeat());
    let resume = GatewayPayload::Resume("t".to_string(), "s".to_string(), 3);
    assert_eq!(resume.opcode(), 6);
    assert_eq!(decoded(resume.opcode()), GatewayOpcode::Resume());
}

#[test]
fn new_shard() {
    let shard = Shard::new("Bot abc", (2, 5));
    assert_eq!(shard.url, "wss://gateway.discord.gg/?v=6");
    assert_eq!(shard.token, "Bot abc");
    assert_eq!(shard.state, GatewayState::Connecting);
    assert_eq!(shard.heartbeat_interval, 45000);
    assert_eq!(DEFAULT_HEARTBEAT_INTERVAL, 45000);
    assert_eq!(shard.shard_info, (2, 5));
    assert_eq!(shard.seq, None);
    assert_eq!(shard.session_id, None);
}

#[test]
fn receive_text_reads_its_numbers() {
    let mut shard = Shard::new("t", (0, 1));
    match shard.receive(IncomingMessage::Text("{\"op\":1,\"d\":42}".to_string())) {
        Received::Payload(op, d, data) => {
            assert_eq!(op, Some(1));
            assert_eq!(d, Some(42));
            assert_eq!(data, serde_json::Value::from(42u64));
        }
        other => panic!("unexpected {:?}", other),
    }
    match shard.receive(IncomingMessage::Text("{\"op\":11,\"d\":null}".to_string())) {
        Received::Payload(op, d, _) => {
            assert_eq!(op, Some(11));
            assert_eq!(d, None);
        }
        other => panic!("unexpected {:?}", other),
    }
    assert_eq!(shard.state, GatewayState::Connecting);
}

#[test]
fn receive_text_without_numbers() {
    let mut shard = Shard::new("t", (0, 1));
    match shard.receive(IncomingMessage::Text("{\"op\":-1,\"d\":{\"x\":1}}".to_string())) {
        Received::Payload(op, d, data) => {
            assert_eq!(op, None);
            assert_eq!(d, None);
            assert_eq!(data, parsed("{\"x\":1}"));
        }
        other => panic!("unexpected {:?}", other),
    }
}

#[test]
fn receive_bad_text_stops() {
    let mut shard = Shard::new("t", (0, 1));
    let r = shard.receive(IncomingMessage::Text("{\"op\":".to_string()));
    assert!(matches!(r, Received::Stop(Error::SerdeError(_))));
    assert_eq!(shard.state, GatewayState::Connecting);
}

#[test]
fn receive_binary_inflates_and_reads_it() {
    let payload = b"{\"op\":10,\"d\":{\"heartbeat_interval\":41250}}";
    let mut encoder = ZlibEncoder::new(Vec::new(), Compression::default());
    encoder.write_all(payload).unwrap();
    let compressed = encoder.finish().unwrap();
    let mut shard = Shard::new("t", (0, 1));
    match shard.receive(IncomingMessage::Binary(compressed)) {
        Received::Payload(op, d, data) => {
            assert_eq!(op, Some(10));
            assert_eq!(d, None);
            assert_eq!(data, parsed("{\"heartbeat_interval\":41250}"));
        }
        other => panic!("unexpected {:?}", other),
    }
}

#[test]
fn receive_corrupt_binary_stops() {
    let mut shard = Shard::new("t", (0, 1));
    let r = shard.receive(IncomingMessage::Binary(vec![1, 2, 3, 4, 5]));
    assert!(matches!(r, Received::Stop(Error::SerdeError(_))));
    assert_eq!(shard.state, GatewayState::Connecting);
}

#[test]
fn receive_uncompressed_binary_stops() {
    let mut shard = Shard::new("t", (0, 1));
    let r = shard.receive(IncomingMessage::Binary(b"{\"op\":11}".to_vec()));
    assert!(matches!(r, Received::Stop(Error::SerdeError(_))));
}

#[test]
fn receive_close_disconnects() {
    let mut shard = Shard::new("t", (0, 1));
    let r = shard.receive(IncomingMessage::Close(Some(CloseKind::Library(4004))));
    assert!(matches!(r, Received::Stop(Error::GatewayError(close_code::AuthenticationError))));
    assert_eq!(shard.state, GatewayState::Disconnected);
}

#[test]
fn close_errors() {
    assert!(matches!(close_error(Some(CloseKind::Library(4009))), Error::GatewayError(close_code::SessionTimeOut)));
    assert!(matches!(close_error(Some(CloseKind::Library(4006))), Error::Invalidclose_code(4006)));
    assert!(matches!(close_error(Some(CloseKind::Library(4999))), Error::Invalidclose_code(4999)));
    assert!(matches!(close_error(Some(CloseKind::Normal)), Error::GatewayError(close_code::TimeOut)));
    assert!(matches!(close_error(Some(CloseKind::Other)), Error::GatewayError(close_code::UnknownCloseCode)));
    assert!(matches!(close_error(None), Error::GatewayError(close_code::UnknownCloseCode)));
}

#[test]
fn close_frame_round_trip() {
    for c in [close_code::UnknownError, close_code::RateLimit, close_code::DisallowedIntent] {
        match close_error(Some(CloseKind::Library(c.number()))) {
            Error::GatewayError(read) => assert_eq!(read, c),
            other => panic!("unexpected {:?}", other),
        }
    }
}

#[test]
fn receive_ignores_other_messages() {
    let mut shard = Shard::new("t", (0, 1));
    assert!(matches!(shard.receive(IncomingMessage::Other), Received::Ignored));
    assert!(matches!(shard.receive(IncomingMessage::ReadError), Received::Ignored));
    assert_eq!(shard.state, GatewayState::Connecting);
}

#[test]
fn hello_sends_identify() {
    let mut shard = Shard::new("Bot abc", (3, 7));
    let hello = GatewayOpcode::Hello(Hello { heartbeat_interval: 41250 });
    match shard.handle_payload(hello, None, "linux") {
        ShardAction::SendIdentify(id) => {
            assert_eq!(id.token, "Bot abc");
            assert_eq!(id.properties.os, "linux");
            assert_eq!(id.properties.browser, "HikaruLib");
            assert_eq!(id.properties.device, "HikaruLib");
            assert!(id.compress);
            assert_eq!(id.shard, (3, 7));
            assert!(!id.guild_subscriptions);
            assert_eq!(id.intents, 0);
        }
        other => panic!("unexpected {:?}", other),
    }
    assert_eq!(shard.heartbeat_interval, 41250);
    assert_eq!(shard.state, GatewayState::Connecting);
}

#[test]
fn hello_while_reconnecting_sends_nothing() {
    let mut shard = Shard::new("t", (0, 1));
    shard.state = GatewayState::Reconnecting;
    let hello = Hello { heartbeat_interval: 1000 };
    assert!(hello.handle_payload(&mut shard, "linux").is_none());
    assert_eq!(shard.heartbeat_interval, 1000);
    assert_eq!(shard.state, GatewayState::Reconnecting);
}

#[test]
fn heartbeat_sets_sequence() {
    let mut shard = Shard::new("t", (0, 1));
    assert!(matches!(shard.handle_payload(GatewayOpcode::Heartbeat(), Some(42), "linux"), ShardAction::Continue));
    assert_eq!(shard.seq, Some(42));
    match shard.heartbeat_payload() {
        GatewayPayload::Heartbeat(seq) => assert_eq!(seq, Some(42)),
        other => panic!("unexpected {:?}", other),
    }
    assert!(matches!(shard.handle_payload(GatewayOpcode::Dispatch(), Some(43), "linux"), ShardAction::Continue));
    assert_eq!(shard.seq, Some(42));
}

#[test]
fn reconnect_and_invalid_session_stop_for_reconnection() {
    let mut shard = Shard::new("t", (0, 1));
    match shard.handle_payload(GatewayOpcode::Reconnect(), None, "linux") {
        ShardAction::Stop(Error::GatewayError(c)) => {
            assert_eq!(c, close_code::Reconnect);
            assert_eq!(c.resolve(), GatewayErrorResolve::Reconnect);
        }
        other => panic!("unexpected {:?}", other),
    }
    assert_eq!(shard.state, GatewayState::Resuming);
    match shard.handle_payload(GatewayOpcode::InvalidSession(), None, "linux") {
        ShardAction::Stop(Error::GatewayError(c)) => assert_eq!(c, close_code::Reconnect),
        other => panic!("unexpected {:?}", other),
    }
    assert_eq!(shard.state, GatewayState::Reconnecting);
}

#[test]
fn heartbeat_ack_measures_ping() {
    let mut shard = Shard::new("t", (0, 1));
    assert!(matches!(shard.handle_payload(GatewayOpcode::HeartbeatACK(), None, "linux"), ShardAction::MeasurePing));
}

#[test]
fn send_only_payloads_are_unexpected() {
    let mut shard = Shard::new("t", (0, 1));
    for op in [GatewayOpcode::Identify(), GatewayOpcode::Resume(), GatewayOpcode::PresenceUpdate(),
               GatewayOpcode::VoiceStateUpdate(), GatewayOpcode::RequestGuildMembers()] {
        match shard.handle_payload(op, None, "linux") {
            ShardAction::Unexpected(p) => assert_eq!(p, op),
            other => panic!("unexpected {:?}", other),
        }
    }
    assert_eq!(shard.state, GatewayState::Connecting);
}

#[test]
fn last_hello_sets_interval() {
    let mut shard = Shard::new("t", (0, 1));
    shard.handle_payload(GatewayOpcode::Hello(Hello { heartbeat_interval: 100 }), None, "x");
    shard.handle_payload(GatewayOpcode::Heartbeat(), Some(1), "x");
    shard.handle_payload(GatewayOpcode::Hello(Hello { heartbeat_interval: 200 }), None, "x");
    shard.handle_payload(GatewayOpcode::Dispatch(), None, "x");
    assert_eq!(shard.heartbeat_interval, 200);
    assert_eq!(shard.seq, Some(1));
    assert_eq!(shard.token, "t");
    assert_eq!(shard.url, "wss://gateway.discord.gg/?v=6");
}

#[test]
fn resume_payload_carries_session() {
    let mut shard = Shard::new("tok", (0, 1));
    shard.session_id = Some("sess".to_string());
    shard.seq = Some(9);
    match shard.resume_payload() {
        GatewayPayload::Resume(t, s, q) => {
            assert_eq!(t, "tok");
            assert_eq!(s, "sess");
            assert_eq!(q, 9);
        }
        other => panic!("unexpected {:?}", other),
    }
}

#[test]
fn read_results() {
    match Received::from_read(Ok((Some(7), Some(3), serde_json::Value::from(3u64)))) {
        Received::Payload(op, d, data) => {
            assert_eq!((op, d), (Some(7), Some(3)));
            assert_eq!(data, serde_json::Value::from(3u64));
        }
        other => panic!("unexpected {:?}", other),
    }
    let e = serde_json::from_str::<serde_json::Value>("[").unwrap_err();
    assert!(matches!(Received::from_read(Err(e)), Received::Stop(Error::SerdeError(_))));
}

#[test]
fn ignored_messages_leave_a_run_unchanged() {
    let mut plain = Shard::new("t", (0, 1));
    let mut noisy = Shard::new("t", (0, 1));
    assert!(matches!(plain.receive(IncomingMessage::Text("{\"op\":1,\"d\":5}".to_string())), Received::Payload(..)));
    assert!(matches!(noisy.receive(IncomingMessage::ReadError), Received::Ignored));
    assert!(matches!(noisy.receive(IncomingMessage::Text("{\"op\":1,\"d\":5}".to_string())), Received::Payload(..)));
    assert!(matches!(noisy.receive(IncomingMessage::Other), Received::Ignored));
    assert!(matches!(plain.receive(IncomingMessage::Close(None)), Received::Stop(_)));
    assert!(matches!(noisy.receive(IncomingMessage::Close(None)), Received::Stop(_)));
    assert_eq!(plain.state, noisy.state);
    assert_eq!(noisy.state, GatewayState::Disconnected);
}
