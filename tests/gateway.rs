use discord::dispatched_event::DispatchedEvent;
use discord::events::{decode_frame, GatewayRecieveEvent};
use discord::error::GatewayError;
use discord::heartbeat::{HeartbeatAction, HeartbeatPhase, HeartbeatScheduler, SendOutcome};
use discord::json::{parse_json, JsonValue};
use discord::message::Message;
use discord::queue::{EventQueue, QueueItem};
use discord::session::{FrameOutcome, Session, SessionState};

const MESSAGE_BODY: &str = r#"{"type":0,"id":"11","channel_id":"22","timestamp":"2024-01-01T00:00:00.000000+00:00","flags":0,"attachments":[],"embeds":[],"components":[],"content":"hi","author":{"id":"33","username":"someone","avatar":null,"discriminator":"0","public_flags":0},"pinned":false,"mention_everyone":false,"tts":false,"edited_timestamp":null}"#;

fn message_frame(s: u64) -> String {
    format!(r#"{{"op":0,"t":"MESSAGE_CREATE","s":{},"d":{}}}"#, s, MESSAGE_BODY)
}

fn steady_session() -> Session {
    let mut session = Session::new();
    assert!(session.login_sent());
    assert!(session.loops_started());
    session
}

#[test]
fn hello_frame_decodes_to_hello() {
    match decode_frame(r#"{"op":10,"d":{"heartbeat_interval":41250}}"#) {
        Ok(GatewayRecieveEvent::Hello { heartbeat_info }) => assert_eq!(heartbeat_info.heartbeat_interval, 41250),
        other => panic!("unexpected {:?}", other),
    }
}

#[test]
fn heartbeat_ack_frame_decodes_to_ack_whatever_its_tag() {
    assert!(matches!(
        decode_frame(r#"{"op":11,"t":"MESSAGE_CREATE","d":{}}"#),
        Ok(GatewayRecieveEvent::HeartbeatAck {})
    ));
    assert!(matches!(decode_frame(r#"{"op":11}"#), Ok(GatewayRecieveEvent::HeartbeatAck {})));
}

#[test]
fn other_control_opcodes_are_unwanted() {
    assert!(matches!(decode_frame(r#"{"op":7,"d":null}"#), Ok(GatewayRecieveEvent::UnwantedEvent {})));
    assert!(matches!(decode_frame(r#"{"op":9,"d":false}"#), Ok(GatewayRecieveEvent::UnwantedEvent {})));
}

#[test]
fn unknown_opcode_and_missing_op_are_decode_errors() {
    assert!(matches!(decode_frame(r#"{"op":5,"d":null}"#), Err(GatewayError::DeserializeError { .. })));
    assert!(matches!(decode_frame(r#"{"d":null}"#), Err(GatewayError::DeserializeError { .. })));
    assert!(matches!(decode_frame("not json"), Err(GatewayError::DeserializeError { .. })));
}

#[test]
fn hello_without_interval_is_a_decode_error() {
    assert!(matches!(decode_frame(r#"{"op":10,"d":{}}"#), Err(GatewayError::DeserializeError { .. })));
}

#[test]
fn unknown_type_tag_is_unwanted_and_session_stays_open() {
    let frame = r#"{"op":0,"t":"SOMETHING_NEW","s":3,"d":{"x":1}}"#;
    assert!(matches!(decode_frame(frame), Ok(GatewayRecieveEvent::UnwantedEvent {})));
    let mut session = steady_session();
    assert!(matches!(session.handle_frame(frame), FrameOutcome::Unwanted));
    assert!(session.is_open());
    assert_eq!(session.state(), SessionState::Steady);
    assert!(matches!(session.next_event(), QueueItem::Pending));
}

#[test]
fn array_body_is_unwanted() {
    assert!(matches!(
        decode_frame(r#"{"op":0,"t":"MESSAGE_CREATE","s":1,"d":[1,2]}"#),
        Ok(GatewayRecieveEvent::UnwantedEvent {})
    ));
    assert!(matches!(
        decode_frame(r#"{"op":0,"t":"NOT_A_TAG","s":1,"d":[]}"#),
        Ok(GatewayRecieveEvent::UnwantedEvent {})
    ));
}

#[test]
fn known_unmodelled_tag_decodes_to_its_variant() {
    assert!(matches!(
        decode_frame(r#"{"op":0,"t":"TYPING_START","s":1,"d":{"anything":true}}"#),
        Ok(GatewayRecieveEvent::GeneralEvent { dispatched_event: DispatchedEvent::TypingStart {} })
    ));
    assert!(matches!(
        decode_frame(r#"{"op":0,"t":"PASSIVE_UPDATE_V2","d":{}}"#),
        Ok(GatewayRecieveEvent::GeneralEvent { dispatched_event: DispatchedEvent::PassiveUpdateV2 {} })
    ));
}

#[test]
fn known_modelled_tag_with_wrong_body_is_a_decode_error() {
    assert!(matches!(
        decode_frame(r#"{"op":0,"t":"MESSAGE_CREATE","s":1,"d":{"type":0}}"#),
        Err(GatewayError::DeserializeError { .. })
    ));
    assert!(matches!(
        decode_frame(r#"{"op":0,"s":1,"d":{}}"#),
        Err(GatewayError::DeserializeError { .. })
    ));
}

#[test]
fn message_create_decodes_the_message() {
    match decode_frame(&message_frame(5)) {
        Ok(GatewayRecieveEvent::GeneralEvent { dispatched_event: DispatchedEvent::MessageCreate { message } }) => {
            match message {
                Message::Default(d) => {
                    assert_eq!(d.content, "hi");
                    assert_eq!(d.general.id.snowflake_str, "11");
                    assert_eq!(d.general.channel_id.snowflake_str, "22");
                    assert_eq!(d.author.username, "someone");
                    assert_eq!(d.author.avatar, None);
                    assert_eq!(d.general.timestamp.unix_nanos, 1_704_067_200_000_000_000);
                    assert_eq!(d.edited_timestamp, None);
                },
                other => panic!("unexpected {:?}", other),
            }
        },
        other => panic!("unexpected {:?}", other),
    }
}

#[test]
fn message_ack_and_poll_vote_decode() {
    let ack = r#"{"op":0,"t":"MESSAGE_ACK","s":2,"d":{"channel_id":"1","flags":null,"message_id":"2","version":7}}"#;
    match decode_frame(ack) {
        Ok(GatewayRecieveEvent::GeneralEvent {
            dispatched_event: DispatchedEvent::MessageAck { channel_id, flags, last_viewed, message_id, version },
        }) => {
            assert_eq!(channel_id.snowflake_str, "1");
            assert_eq!(flags, None);
            assert_eq!(last_viewed, None);
            assert_eq!(message_id.snowflake_str, "2");
            assert_eq!(version, 7);
        },
        other => panic!("unexpected {:?}", other),
    }
    let vote = r#"{"op":0,"t":"MESSAGE_POLL_VOTE_ADD","d":{"answer_id":70000,"channel_id":"1","guild_id":"2","message_id":"3","user_id":"4"}}"#;
    assert!(matches!(decode_frame(vote), Err(GatewayError::DeserializeError { .. })));
}

#[test]
fn sequence_follows_the_greatest_seen_on_every_kind_of_frame() {
    let mut session = steady_session();
    session.handle_frame(r#"{"op":10,"s":1,"d":{"heartbeat_interval":1000}}"#);
    assert_eq!(session.sequence(), 1);
    session.handle_frame(&message_frame(4));
    assert_eq!(session.sequence(), 4);
    session.handle_frame(r#"{"op":11,"s":6}"#);
    assert_eq!(session.sequence(), 6);
    session.handle_frame(r#"{"op":0,"t":"UNKNOWN_THING","s":9,"d":{}}"#);
    assert_eq!(session.sequence(), 9);
    session.handle_frame(r#"{"op":11}"#);
    assert_eq!(session.sequence(), 9);
    let frame = session.heartbeat_frame();
    assert_eq!(parse_json(&frame).map(|v| format!("{:?}", v)), parse_json(r#"{"op":1,"d":9}"#).map(|v| format!("{:?}", v)));
}

#[test]
fn heartbeat_waits_for_hello_then_sends_within_one_interval() {
    let mut session = steady_session();
    let mut scheduler = HeartbeatScheduler::new();
    assert_eq!(
        scheduler.next_action(session.heartbeat_interval(), session.is_open()),
        HeartbeatAction::Wait { millis: discord::heartbeat::IDLE_POLL_MS }
    );
    assert_eq!(scheduler.phase, HeartbeatPhase::Idle);
    session.handle_frame(r#"{"op":10,"d":{"heartbeat_interval":1000}}"#);
    assert_eq!(
        scheduler.next_action(session.heartbeat_interval(), session.is_open()),
        HeartbeatAction::SleepThenSend { millis: 1000 }
    );
    assert_eq!(scheduler.phase, HeartbeatPhase::Active);
    scheduler.record_send(SendOutcome::Sent);
    scheduler.record_send(SendOutcome::Failed);
    assert_eq!(scheduler.phase, HeartbeatPhase::Active);
    assert_eq!(scheduler.sent, 1);
    scheduler.record_send(SendOutcome::TransportClosed);
    assert_eq!(scheduler.next_action(1000, true), HeartbeatAction::Exit);
}

#[test]
fn scheduler_exits_when_session_closes() {
    let mut session = steady_session();
    let mut scheduler = HeartbeatScheduler::new();
    session.handle_frame(r#"{"op":10,"d":{"heartbeat_interval":500}}"#);
    session.begin_close();
    assert_eq!(scheduler.next_action(session.heartbeat_interval(), session.is_open()), HeartbeatAction::Exit);
    assert_eq!(scheduler.phase, HeartbeatPhase::Stopped);
}

#[test]
fn end_to_end_hello_message_ack() {
    let mut session = steady_session();
    let mut scheduler = HeartbeatScheduler::new();

    let out = session.handle_frame(r#"{"op":10,"d":{"heartbeat_interval":45000}}"#);
    assert!(matches!(out, FrameOutcome::HelloReceived { heartbeat_interval: 45000 }));
    assert_eq!(
        scheduler.next_action(session.heartbeat_interval(), session.is_open()),
        HeartbeatAction::SleepThenSend { millis: 45000 }
    );
    assert_eq!(scheduler.phase, HeartbeatPhase::Active);
    assert!(matches!(session.next_event(), QueueItem::Pending));

    let out = session.handle_frame(&message_frame(5));
    assert!(matches!(out, FrameOutcome::Queued));
    assert_eq!(session.sequence(), 5);

    let out = session.handle_frame(r#"{"op":11,"d":{}}"#);
    assert!(matches!(out, FrameOutcome::HeartbeatAcknowledged));
    assert_eq!(session.sequence(), 5);

    assert!(matches!(session.next_event(), QueueItem::Event(DispatchedEvent::MessageCreate { .. })));
    assert!(matches!(session.next_event(), QueueItem::Pending));
}

#[test]
fn decoding_twice_gives_the_same_event() {
    let frame = message_frame(8);
    let a = format!("{:?}", decode_frame(&frame));
    let b = format!("{:?}", decode_frame(&frame));
    assert_eq!(a, b);
    assert!(a.starts_with("Ok(GeneralEvent"));
}

#[test]
fn queue_hands_events_out_in_order() {
    let mut q = EventQueue::new();
    q.push(DispatchedEvent::TypingStart {});
    q.push(DispatchedEvent::GuildCreate {});
    q.push(DispatchedEvent::UserUpdate {});
    assert_eq!(q.len(), 3);
    assert!(matches!(q.pop(), QueueItem::Event(DispatchedEvent::TypingStart {})));
    assert!(matches!(q.pop(), QueueItem::Event(DispatchedEvent::GuildCreate {})));
    assert!(matches!(q.pop(), QueueItem::Event(DispatchedEvent::UserUpdate {})));
    assert!(matches!(q.pop(), QueueItem::Pending));
    q.close();
    q.push(DispatchedEvent::TypingStart {});
    assert!(matches!(q.pop(), QueueItem::End));
}

#[test]
fn session_queue_is_fifo_with_heartbeats_in_between() {
    let mut session = steady_session();
    session.handle_frame(r#"{"op":0,"t":"TYPING_START","s":1,"d":{}}"#);
    let _ = session.heartbeat_frame();
    session.handle_frame(r#"{"op":0,"t":"GUILD_CREATE","s":2,"d":{}}"#);
    let _ = session.heartbeat_frame();
    session.handle_frame(r#"{"op":0,"t":"USER_UPDATE","s":3,"d":{}}"#);
    assert!(matches!(session.next_event(), QueueItem::Event(DispatchedEvent::TypingStart {})));
    assert!(matches!(session.next_event(), QueueItem::Event(DispatchedEvent::GuildCreate {})));
    assert!(matches!(session.next_event(), QueueItem::Event(DispatchedEvent::UserUpdate {})));
    session.begin_close();
    assert!(matches!(session.next_event(), QueueItem::End));
}

#[test]
fn empty_and_malformed_frames_change_nothing() {
    let mut session = steady_session();
    assert!(matches!(session.handle_frame(""), FrameOutcome::Ignored));
    assert!(matches!(session.handle_frame("{not json"), FrameOutcome::Malformed));
    assert_eq!(session.sequence(), 0);
    assert!(session.is_open());
}

#[test]
fn closed_session_ignores_frames() {
    let mut session = steady_session();
    session.begin_close();
    assert_eq!(session.state(), SessionState::Closing);
    assert!(matches!(session.handle_frame(&message_frame(3)), FrameOutcome::Ignored));
    assert_eq!(session.sequence(), 0);
    session.finish_close();
    assert_eq!(session.state(), SessionState::Closed);
}

#[test]
fn lifecycle_transitions_happen_in_order() {
    let mut session = Session::new();
    assert_eq!(session.state(), SessionState::Connecting);
    assert!(!session.loops_started());
    assert!(session.login_sent());
    assert_eq!(session.state(), SessionState::Authenticating);
    assert!(!session.login_sent());
    assert!(session.loops_started());
    assert_eq!(session.state(), SessionState::Steady);
}

#[test]
fn json_lookup_reads_fields() {
    let v = parse_json(r#"{"a":1,"b":"x","c":[true],"d":-3,"e":1.5}"#).unwrap();
    assert_eq!(v.get_u64("a"), Some(1));
    assert_eq!(v.get_string("b"), Some("x".to_string()));
    assert_eq!(v.get_u64("b"), None);
    assert!(matches!(v.get("c"), Some(JsonValue::Array(_))));
    assert!(matches!(v.get("d"), Some(JsonValue::NegInt(-3))));
    assert!(matches!(v.get("e"), Some(JsonValue::Float(_))));
    assert_eq!(v.get_opt_u64("zz"), Some(None));
}
