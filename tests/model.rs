use discord::channel::{Channel, ChannelType};
use discord::client::{random_agent_index, DiscordClientBuilder, USER_AGENT_COUNT};
use discord::dispatched_event::DispatchedEvent;
use discord::endpoints;
use discord::error::GatewayError;
use discord::events::{decode_frame, GatewayRecieveEvent};
use discord::json::{encode_json, parse_json, JsonValue};
use discord::message::Message;
use discord::model::Snowflake;
use discord::opcode::GatewayOpCode;
use discord::outbound::{ClientState, GatewaySendEventRaw, Presence, Properties};
use discord::permission_bit_flag;
use discord::permissions::{PermissionOverwriteType, Permissions};
use discord::rest::{open_channel_body, response_error_code, DiscordErrorCode, MessageFetchRate, MessagePostData};
use discord::user::{NitroType, RelationshipAddEvent, RelationshipRemoveEvent, UserData};
use discord::user_structs::{Me, User};
use discord::util::Stopwatch;

fn json(text: &str) -> JsonValue {
    parse_json(text).expect("valid JSON")
}

fn dispatched(frame: &str) -> DispatchedEvent {
    match decode_frame(frame) {
        Ok(GatewayRecieveEvent::GeneralEvent { dispatched_event }) => dispatched_event,
        other => panic!("unexpected {:?}", other),
    }
}

#[test]
fn endpoint_urls() {
    let c = Snowflake::new("123");
    let m = Snowflake::new("456");
    assert_eq!(endpoints::channel(&c), "https://discord.com/api/v9/channels/123");
    assert_eq!(endpoints::guild_channels(&c), "https://discord.com/api/v9/guilds/123/channels");
    assert_eq!(endpoints::send_message(&c), "https://discord.com/api/v9/channels/123/messages");
    assert_eq!(endpoints::start_typing(&c), "https://discord.com/api/v9/channels/123/typing");
    assert_eq!(endpoints::user(&m), "https://discord.com/api/v9/users/456");
    assert_eq!(endpoints::message(&c, &m), "https://discord.com/api/v9/channels/123/messages/456");
    assert_eq!(endpoints::close_channel(&c), "https://discord.com/api/v9/channels/123?silent=false");
    assert_eq!(
        endpoints::messages(&c, Some(&m), 50),
        "https://discord.com/api/v9/channels/123/messages?before=456&limit=50"
    );
    assert_eq!(endpoints::messages(&c, None, 100), "https://discord.com/api/v9/channels/123/messages?&limit=100");
    assert_eq!(endpoints::messages(&c, None, 7), "https://discord.com/api/v9/channels/123/messages?&limit=7");
    assert_eq!(endpoints::messages(&c, None, 255), "https://discord.com/api/v9/channels/123/messages?&limit=255");
    assert_eq!(endpoints::messages(&c, None, 0), "https://discord.com/api/v9/channels/123/messages?&limit=0");
    assert_eq!(endpoints::ME, "https://discord.com/api/v9/users/@me");
}

#[test]
fn permissions_need_every_bit() {
    let p = Permissions::from_bits(permission_bit_flag::SEND_MESSAGES | permission_bit_flag::VIEW_CHANNEL);
    assert!(p.has_permission(permission_bit_flag::SEND_MESSAGES));
    assert!(p.has_permission(permission_bit_flag::SEND_MESSAGES | permission_bit_flag::VIEW_CHANNEL));
    assert!(!p.has_permission(permission_bit_flag::ADMINISTRATOR));
    assert!(!p.has_permission(permission_bit_flag::SEND_MESSAGES | permission_bit_flag::ADMINISTRATOR));
    assert_eq!(permission_bit_flag::USE_EXTERNAL_APPS, 1u128 << 50);
}

#[test]
fn opcode_numbers_round_trip() {
    for n in 0..20u64 {
        match GatewayOpCode::from_u64(n) {
            Some(op) => assert_eq!(op.number(), n),
            None => assert!(n == 5 || n > 11),
        }
    }
    assert_eq!(GatewayOpCode::from_u64(10), Some(GatewayOpCode::Hello));
}

#[test]
fn heartbeat_and_login_frames() {
    let beat = GatewaySendEventRaw::heartbeat(42).into_text();
    assert_eq!(format!("{:?}", parse_json(&beat)), format!("{:?}", parse_json(r#"{"d":42,"op":1}"#)));
    let login = GatewaySendEventRaw::login(
        "SECRET-REDACTED".to_string(),
        30717,
        Properties {
            os: "Windows".to_string(),
            browser: "Firefox".to_string(),
            system_locale: "en-US".to_string(),
            browser_user_agent: "agent".to_string(),
        },
        Presence { status: "unknown".to_string(), since: 0, activities: vec!["a".to_string()], afk: false, broadcast: None },
        false,
        ClientState { guild_versions: vec![("1".to_string(), 3)] },
    );
    let text = login.into_text();
    let v = json(&text);
    assert_eq!(v.get_u64("op"), Some(2));
    let d = v.get("d").unwrap();
    assert_eq!(d.get_string("token"), Some("SECRET-REDACTED".to_string()));
    assert_eq!(d.get_u64("capabilities"), Some(30717));
    assert_eq!(d.get_bool("compress"), Some(false));
    assert_eq!(d.get("properties").unwrap().get_string("os"), Some("Windows".to_string()));
    assert!(matches!(d.get("presence").unwrap().get("broadcast"), Some(JsonValue::Null)));
    assert_eq!(d.get("client_state").unwrap().get("guild_versions").unwrap().get_u64("1"), Some(3));
}

#[test]
fn encode_then_parse_keeps_the_document() {
    let v = json(r#"{"a":[1,-2,"x",null,true],"b":{"c":2.5}}"#);
    let text = encode_json(&v);
    assert_eq!(text, r#"{"a":[1,-2,"x",null,true],"b":{"c":2.5}}"#);
}

#[test]
fn ready_event_reads_the_account() {
    let e = dispatched(r#"{"op":0,"t":"READY","s":1,"d":{"user":{"id":"9","username":"me","avatar":null,"discriminator":"0","premium_type":2,"flags":0,"banner":null,"accent_color":null,"global_name":"Me","avatar_decoration_data":null,"banner_color":null,"mfa_enabled":false,"email":"e@x","verified":true,"phone":null,"nsfw_allowed":false,"bio":""}}}"#);
    match e {
        DispatchedEvent::Ready { user } => {
            assert_eq!(user.id.snowflake_str, "9");
            assert_eq!(user.premium_type, NitroType::Nitro);
            assert_eq!(user.global_name, Some("Me".to_string()));
        },
        other => panic!("unexpected {:?}", other),
    }
}

#[test]
fn channel_events_read_the_channel() {
    let e = dispatched(r#"{"op":0,"t":"CHANNEL_UPDATE","s":1,"d":{"type":0,"id":"5","last_message_id":null,"flags":0,"guild_id":"6","name":"general","parent_id":null,"rate_limit_per_user":0,"topic":null,"position":1,"permission_overwrites":[{"id":"7","type":1,"allow":"1024","deny":"0"}],"nsfw":false,"version":3}}"#);
    match e {
        DispatchedEvent::ChannelUpdate { channel: Channel::GuildText(t), version } => {
            assert_eq!(version, 3);
            assert_eq!(t.name, "general");
            assert_eq!(t.permission_overwrites.len(), 1);
            assert_eq!(t.permission_overwrites[0].kind, PermissionOverwriteType::Member);
        },
        other => panic!("unexpected {:?}", other),
    }
    let e = dispatched(r#"{"op":0,"t":"CHANNEL_DELETE","d":{"type":11,"id":"5","version":4}}"#);
    assert!(matches!(e, DispatchedEvent::ChannelDelete { channel: Channel::PublicThread, version: 4 }));
    assert!(matches!(
        decode_frame(r#"{"op":0,"t":"CHANNEL_DELETE","d":{"type":9,"id":"5","version":4}}"#),
        Err(GatewayError::DeserializeError { .. })
    ));
    assert_eq!(ChannelType::from_u64(15), Some(ChannelType::GuildForum));
    assert_eq!(ChannelType::from_u64(6), None);
}

#[test]
fn dm_channel_takes_the_first_recipient() {
    let v = json(r#"{"type":1,"id":"1","last_message_id":"2","flags":0,"recipients":[{"id":"3","username":"a","avatar":null,"discriminator":"0"}]}"#);
    match Channel::from_json(&v) {
        Some(Channel::Dm(d)) => {
            assert_eq!(d.recipient.username, "a");
            assert_eq!(d.last_pin_timestamp, None);
        },
        other => panic!("unexpected {:?}", other),
    }
    let empty = json(r#"{"type":1,"id":"1","last_message_id":null,"flags":0,"recipients":[]}"#);
    assert!(Channel::from_json(&empty).is_none());
    let list = json(r#"[{"type":11,"id":"1"},{"type":12,"id":"2"}]"#);
    assert_eq!(Channel::list_from_json(&list).map(|l| l.len()), Some(2));
    assert!(Channel::list_from_json(&json(r#"[{"type":99}]"#)).is_none());
}

#[test]
fn voice_and_call_events() {
    let state = r#"{"channel_id":null,"deaf":false,"mute":false,"request_to_speak_timestamp":null,"self_deaf":true,"self_mute":false,"self_video":false,"session_id":"s","suppress":false,"user_id":"u"}"#;
    let frame = format!(r#"{{"op":0,"t":"VOICE_STATE_UPDATE","d":{}}}"#, state.replace("\"user_id\":\"u\"", "\"user_id\":\"u\",\"guild_id\":\"g\""));
    match dispatched(&frame) {
        DispatchedEvent::VoiceStateUpdate { new_state, guild_id, member } => {
            assert!(new_state.self_deaf);
            assert_eq!(guild_id.snowflake_str, "g");
            assert!(member.is_none());
        },
        other => panic!("unexpected {:?}", other),
    }
    let call = format!(r#"{{"op":0,"t":"CALL_CREATE","d":{{"channel_id":"1","message_id":"2","region":"eu","ringing":["3","4"],"voice_states":[{}]}}}}"#, state);
    match dispatched(&call) {
        DispatchedEvent::CallCreate { ringing_user_ids, user_voice_states, region, .. } => {
            assert_eq!(ringing_user_ids, vec!["3".to_string(), "4".to_string()]);
            assert_eq!(user_voice_states.len(), 1);
            assert_eq!(region, "eu");
        },
        other => panic!("unexpected {:?}", other),
    }
    let missing = state.replace("\"request_to_speak_timestamp\":null,", "");
    let frame = format!(r#"{{"op":0,"t":"VOICE_STATE_UPDATE","d":{}}}"#, missing.replace("\"user_id\":\"u\"", "\"user_id\":\"u\",\"guild_id\":\"g\""));
    assert!(matches!(decode_frame(&frame), Err(GatewayError::DeserializeError { .. })));
}

#[test]
fn relationship_events_by_type() {
    let user = r#"{"id":"3","username":"a","avatar":null,"discriminator":"0"}"#;
    let add = format!(r#"{{"op":0,"t":"RELATIONSHIP_ADD","d":{{"type":3,"nickname":null,"should_notify":true,"since":"2024-01-01T00:00:00+00:00","user":{}}}}}"#, user);
    match dispatched(&add) {
        DispatchedEvent::RelationshipAdd { relationship_add_event: RelationshipAddEvent::NewIncoming(r) } => {
            assert!(r.should_notify);
            assert_eq!(r.from_user.username, "a");
            assert_eq!(r.friend_request_sent_date.unix_nanos, 1_704_067_200_000_000_000);
        },
        other => panic!("unexpected {:?}", other),
    }
    let remove = r#"{"op":0,"t":"RELATIONSHIP_REMOVE","d":{"type":4,"id":"8","nickname":"n"}}"#;
    match dispatched(remove) {
        DispatchedEvent::RelationshipRemove { relationship_remove_event: RelationshipRemoveEvent::OutgoingCanceled(r) } => {
            assert_eq!(r.other_user_id.snowflake_str, "8");
            assert_eq!(r.nickname, Some("n".to_string()));
        },
        other => panic!("unexpected {:?}", other),
    }
    assert!(matches!(
        decode_frame(r#"{"op":0,"t":"RELATIONSHIP_REMOVE","d":{"type":2,"id":"8"}}"#),
        Err(GatewayError::DeserializeError { .. })
    ));
}

const GENERAL: &str = r#""id":"11","channel_id":"22","timestamp":"2024-01-01T00:00:00.000000+00:00","flags":0,"attachments":[{"id":"a1"}],"embeds":[{"type":"rich"}],"components":[{"type":1}]"#;
const AUTHOR: &str = r#""author":{"id":"33","username":"someone","avatar":"h","discriminator":"0","public_flags":64}"#;

#[test]
fn message_types_decode_to_their_variants() {
    let default = format!(r#"{{"type":0,{},{},"content":"c","pinned":false,"mention_everyone":false,"tts":false}}"#, GENERAL, AUTHOR);
    match Message::from_json(&json(&default)) {
        Some(Message::Default(d)) => {
            assert_eq!(d.general.attachments[0].id.snowflake_str, "a1");
            assert_eq!(d.general.embeds[0].kind, "rich");
            assert_eq!(d.general.components[0].kind, 1);
            assert_eq!(d.author.public_flags, Some(64));
            assert_eq!(d.edited_timestamp, None);
            assert!(d.is_author(&Snowflake::new("33")));
            assert!(!d.is_author(&Snowflake::new("34")));
        },
        other => panic!("unexpected {:?}", other),
    }
    let reply = format!(r#"{{"type":19,{},{},"content":"r","pinned":false,"mention_everyone":false,"tts":false,"referenced_message":{}}}"#, GENERAL, AUTHOR, default);
    match Message::from_json(&json(&reply)) {
        Some(Message::Reply(r)) => {
            assert_eq!(r.message.content, "r");
            assert!(matches!(r.referenced_message.as_deref(), Some(Message::Default(_))));
        },
        other => panic!("unexpected {:?}", other),
    }
    let call = format!(r#"{{"type":3,{},{},"call":{{"ended_timestamp":null,"participants":["1"]}}}}"#, GENERAL, AUTHOR);
    assert!(matches!(Message::from_json(&json(&call)), Some(Message::Call(_))));
    let join = format!(r#"{{"type":7,{},{}}}"#, GENERAL, AUTHOR);
    assert!(matches!(Message::from_json(&json(&join)), Some(Message::UserJoin(_))));
    let boost = format!(r#"{{"type":8,{}}}"#, GENERAL);
    assert!(matches!(Message::from_json(&json(&boost)), Some(Message::Unknown(_))));
    let unknown_type = format!(r#"{{"type":13,{}}}"#, GENERAL);
    assert!(Message::from_json(&json(&unknown_type)).is_none());
    let bad_time = default.replace("2024-01-01T00:00:00.000000+00:00", "yesterday");
    assert!(Message::from_json(&json(&bad_time)).is_none());
    let list = format!("[{},{}]", default, boost);
    assert_eq!(Message::list_from_json(&json(&list)).map(|l| l.len()), Some(2));
}

#[test]
fn message_update_reads_optional_lists() {
    let e = dispatched(r#"{"op":0,"t":"MESSAGE_UPDATE","d":{"id":"1","channel_id":"2","guild_id":"3","embeds":[{"type":"rich"}],"attachments":null}}"#);
    match e {
        DispatchedEvent::MessageUpdate { message_id, embeds, components, attachments, .. } => {
            assert_eq!(message_id.snowflake_str, "1");
            assert_eq!(embeds.map(|e| e.len()), Some(1));
            assert!(components.is_none());
            assert!(attachments.is_none());
        },
        other => panic!("unexpected {:?}", other),
    }
}

#[test]
fn user_reads_extra_info_only_with_premium_type() {
    let plain = json(r#"{"id":"1","username":"u","avatar":"h","discriminator":"0","public_flags":0,"flags":2,"banner":null,"accent_color":null,"banner_color":null}"#);
    let user = User::from_json(&plain).unwrap();
    assert_eq!(user.username(), "u");
    assert!(user.extra_info().is_none());
    let premium = json(r#"{"id":"1","username":"u","avatar":"h","discriminator":"0","public_flags":0,"premium_type":2,"flags":2,"banner":"b","accent_color":5,"banner_color":null}"#);
    let mut user = User::from_json(&premium).unwrap();
    let extra = user.extra_info().as_ref().unwrap();
    assert_eq!(extra.premium_type(), 2);
    assert_eq!(extra.flags(), 2);
    assert_eq!(extra.accent_color(), &Some(5));
    user.set_extra_info(None);
    assert!(user.extra_info().is_none());
    assert_eq!(user.id(), "1");
}

#[test]
fn me_reads_every_field() {
    let v = json(r#"{"id":"1","username":"u","avatar":"h","discriminator":"0","public_flags":1,"premium_type":0,"flags":4,"banner":null,"accent_color":null,"global_name":null,"avatar_decoration_data":null,"banner_color":null,"mfa_enabled":true,"locale":"en-US","email":"e","verified":true,"phone":null,"nsfw_allowed":false,"linked_users":[],"bio":"b","authenticator_types":["x"]}"#);
    let me = Me::from_json(&v).unwrap();
    assert_eq!(me.locale(), "en-US");
    assert!(me.mfa_enabled());
    assert_eq!(me.flags(), 4);
    assert_eq!(me.authenticator_types(), &vec!["x".to_string()]);
    assert!(Me::from_json(&json(r#"{"id":"1"}"#)).is_none());
}

#[test]
fn user_data_reads_optional_fields() {
    let u = UserData::from_json(&json(r#"{"id":"1","username":"u","avatar":null,"discriminator":"0"}"#)).unwrap();
    assert_eq!(u.public_flags, None);
    assert!(UserData::from_json(&json(r#"{"id":1,"username":"u","avatar":null,"discriminator":"0"}"#)).is_none());
}

#[test]
fn rest_error_codes_and_bodies() {
    assert_eq!(response_error_code(&json(r#"{"id":"1"}"#)), None);
    assert_eq!(response_error_code(&json(r#"{"code":0}"#)), Some(DiscordErrorCode::Unauthorized));
    assert_eq!(
        response_error_code(&json(r#"{"code":20028,"retry_after":1.5}"#)),
        Some(DiscordErrorCode::WriteChannelRateLimitReached)
    );
    assert_eq!(response_error_code(&json(r#"{"code":50001}"#)), Some(DiscordErrorCode::Unknown));
    assert_eq!(DiscordErrorCode::from_i64(20028), DiscordErrorCode::WriteChannelRateLimitReached);
    assert_eq!(MessageFetchRate::Default.limit(), 50);
    assert_eq!(MessageFetchRate::Max.limit(), 100);
    assert_eq!(MessageFetchRate::Custom { per_request: 7 }.limit(), 7);
    let body = encode_json(&MessagePostData::new(&"hi".to_string()).into_json());
    assert_eq!(body, r#"{"content":"hi"}"#);
    let open = encode_json(&open_channel_body(&[Snowflake::new("1"), Snowflake::new("2")]));
    assert_eq!(open, r#"{"recipients":["1","2"]}"#);
}

#[test]
fn builder_and_agent_index() {
    let b = DiscordClientBuilder::new("SECRET-REDACTED").set_user_agent("agent");
    assert_eq!(b.auth, "SECRET-REDACTED");
    assert_eq!(b.user_agent, "agent");
    for seed in [0u64, 1, 999, 1000, 123_456_789] {
        let i = random_agent_index(seed);
        assert!(i < USER_AGENT_COUNT);
        assert_eq!(i, random_agent_index(seed));
    }
    assert!(random_agent_index(123_456_789) != 123_456_789);
}

#[test]
fn stopwatch_counts_up() {
    let mut sw = Stopwatch::new();
    let a = sw.elapsed_nanos();
    let b = sw.elapsed_nanos();
    assert!(b >= a);
    sw.reset();
    assert!(sw.elapsed_millis() < 10_000);
}

#[test]
fn error_descriptions() {
    assert_eq!(GatewayError::DeserializeError { err: "x".to_string() }.describe(), "DeserializeError: x");
    assert_eq!(GatewayError::Custom { text: "t".to_string() }.describe(), "Custom: t");
    assert_eq!(GatewayError::UnwantedEventError { event_name: "E".to_string() }.describe(), "UnwantedEventError: E");
}
