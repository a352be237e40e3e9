//! Inbound frames: the envelope and the events decoded from it.
use vstd::prelude::*;
use crate::json::{JsonValue, field, u64_of, str_of, is_array, parse_json, parsed_json};
use crate::opcode::{GatewayOpCode, opcode_of};
use crate::error::GatewayError;
use crate::dispatched_event::{
    DispatchedEvent, tag_kind, tag_kind_of, payload_of, payload_ok, decode_payload, same_event,
    lemma_payload_of_unique,
};

verus! {

/// The interval at which the server asks for heartbeats.
#[derive(Debug, Clone, Copy, PartialEq, Eq, Structural)]
pub struct HeartbeatInfo {
    /// In milliseconds.
    pub heartbeat_interval: u64,
}

/// The event that one inbound frame carries.
#[derive(Debug)]
pub enum GatewayRecieveEvent {
    /// An event for the application.
    GeneralEvent { dispatched_event: DispatchedEvent },
    /// A frame this client does not act on: an unknown event type, a body
    /// that is an array, or an opcode the client does not handle.
    UnwantedEvent {},
    /// Heartbeat sending is handled by the session.
    Hello { heartbeat_info: HeartbeatInfo },
    HeartbeatAck {},
}

/// The envelope of an inbound frame, without its body.
#[derive(Debug)]
pub struct GatewayReceiveEventRaw {
    /// The event's type tag, for dispatched events.
    pub t: Option<String>,
    pub op: u64,
    /// The frame's sequence number, when it has one.
    pub s: Option<u64>,
}

/// The body of an envelope; a missing body reads as null.
pub open spec fn body_of(v: JsonValue) -> JsonValue {
    match field(v, "d"@) {
        Some(d) => d,
        None => JsonValue::Null,
    }
}

/// The sequence number that an envelope carries.
pub open spec fn sequence_of(v: JsonValue) -> Option<u64> {
    u64_of(field(v, "s"@))
}

pub open spec fn is_decode_error(r: Result<GatewayRecieveEvent, GatewayError>) -> bool {
    r matches Err(GatewayError::DeserializeError { .. })
}

/// What a dispatched envelope decodes to.
pub open spec fn dispatch_of(v: JsonValue, r: Result<GatewayRecieveEvent, GatewayError>) -> bool {
    if is_array(field(v, "d"@)) {
        r == Ok::<GatewayRecieveEvent, GatewayError>(GatewayRecieveEvent::UnwantedEvent {})
    } else {
        match str_of(field(v, "t"@)) {
            None => is_decode_error(r),
            Some(t) => match tag_kind(t@) {
                None => r == Ok::<GatewayRecieveEvent, GatewayError>(GatewayRecieveEvent::UnwantedEvent {}),
                Some(k) => if payload_ok(k, body_of(v)) {
                    r matches Ok(GatewayRecieveEvent::GeneralEvent { dispatched_event: e })
                        && payload_of(k, body_of(v), e)
                } else {
                    is_decode_error(r)
                },
            },
        }
    }
}

/// What an envelope decodes to, for every envelope.
pub open spec fn receive_of(v: JsonValue, r: Result<GatewayRecieveEvent, GatewayError>) -> bool {
    match u64_of(field(v, "op"@)) {
        None => is_decode_error(r),
        Some(n) => match opcode_of(n) {
            None => is_decode_error(r),
            Some(GatewayOpCode::Dispatch) => dispatch_of(v, r),
            Some(GatewayOpCode::Hello) => match u64_of(field(body_of(v), "heartbeat_interval"@)) {
                Some(i) => r == Ok::<GatewayRecieveEvent, GatewayError>(
                    GatewayRecieveEvent::Hello { heartbeat_info: HeartbeatInfo { heartbeat_interval: i } },
                ),
                None => is_decode_error(r),
            },
            Some(GatewayOpCode::HeartbeatAck) => r == Ok::<GatewayRecieveEvent, GatewayError>(
                GatewayRecieveEvent::HeartbeatAck {},
            ),
            Some(_) => r == Ok::<GatewayRecieveEvent, GatewayError>(GatewayRecieveEvent::UnwantedEvent {}),
        },
    }
}

fn decode_error(text: &str) -> (r: GatewayError)
    ensures
        r matches GatewayError::DeserializeError { err } && err@ == text@,
{
    GatewayError::DeserializeError { err: text.to_owned() }
}

/// The sequence number of an envelope.
pub fn sequence(v: &JsonValue) -> (r: Option<u64>)
    ensures
        r == sequence_of(*v),
{
    v.get_u64("s")
}

impl GatewayReceiveEventRaw {
    /// Reads the envelope's opcode, sequence number and type tag; fails
    /// only when the opcode is missing.
    pub fn from_json(v: &JsonValue) -> (r: Option<GatewayReceiveEventRaw>)
        ensures
            match r {
                Some(raw) => {
                    &&& u64_of(field(*v, "op"@)) == Some(raw.op)
                    &&& raw.s == sequence_of(*v)
                    &&& raw.t == str_of(field(*v, "t"@))
                },
                None => u64_of(field(*v, "op"@)) is None,
            },
    {
        match v.get_u64("op") {
            Some(op) => Some(GatewayReceiveEventRaw { t: v.get_string("t"), op, s: v.get_u64("s") }),
            None => None,
        }
    }
}

impl GatewayRecieveEvent {
    /// Decodes an envelope, whatever its opcode.
    pub fn from_json(v: &JsonValue) -> (r: Result<GatewayRecieveEvent, GatewayError>)
        ensures
            receive_of(*v, r),
    {
        let op = match v.get_u64("op") {
            Some(op) => op,
            None => return Err(decode_error("missing or invalid op")),
        };
        let null = JsonValue::Null;
        let body = match v.get("d") {
            Some(d) => d,
            None => &null,
        };
        match GatewayOpCode::from_u64(op) {
            None => Err(decode_error("unknown opcode")),
            Some(GatewayOpCode::Dispatch) => Self::from_dispatch(v, body),
            Some(GatewayOpCode::Hello) => match body.get_u64("heartbeat_interval") {
                Some(i) => Ok(GatewayRecieveEvent::Hello { heartbeat_info: HeartbeatInfo { heartbeat_interval: i } }),
                None => Err(decode_error("hello without a heartbeat interval")),
            },
            Some(GatewayOpCode::HeartbeatAck) => Ok(GatewayRecieveEvent::HeartbeatAck {}),
            Some(_) => Ok(GatewayRecieveEvent::UnwantedEvent {}),
        }
    }

    /// Decodes a dispatched envelope `v` whose body is `body`.
    fn from_dispatch(v: &JsonValue, body: &JsonValue) -> (r: Result<GatewayRecieveEvent, GatewayError>)
        requires
            *body == body_of(*v),
        ensures
            dispatch_of(*v, r),
    {
        if let JsonValue::Array(_) = body {
            return Ok(GatewayRecieveEvent::UnwantedEvent {});
        }
        let t = match v.get("t") {
            Some(JsonValue::Str(t)) => t,
            _ => return Err(decode_error("dispatched event without a type")),
        };
        match tag_kind_of(t.as_str()) {
            None => Ok(GatewayRecieveEvent::UnwantedEvent {}),
            Some(k) => match decode_payload(k, body) {
                Some(e) => Ok(GatewayRecieveEvent::GeneralEvent { dispatched_event: e }),
                None => Err(decode_error("event body does not match its type")),
            },
        }
    }
}

/// Decodes one inbound text frame: a text that is not JSON is a decode error.
pub fn decode_frame(text: &str) -> (r: Result<GatewayRecieveEvent, GatewayError>)
    ensures
        match parsed_json(text@) {
            Some(v) => receive_of(v, r),
            None => is_decode_error(r),
        },
{
    match parse_json(text) {
        Some(v) => GatewayRecieveEvent::from_json(&v),
        None => Err(decode_error("frame is not JSON")),
    }
}

/// A frame whose opcode is known and is not Dispatch decodes by its opcode
/// alone: Hello to Hello, HeartbeatAck to HeartbeatAck, any other to an
/// unwanted event. It never yields a dispatched event, whatever its type tag.
pub proof fn lemma_control_frames_decode_by_opcode(v: JsonValue, r: Result<GatewayRecieveEvent, GatewayError>)
    requires
        receive_of(v, r),
        u64_of(field(v, "op"@)) matches Some(n) && opcode_of(n) matches Some(op) && op != GatewayOpCode::Dispatch,
    ensures
        !(r matches Ok(GatewayRecieveEvent::GeneralEvent { .. })),
        opcode_of(u64_of(field(v, "op"@))->Some_0) == Some(GatewayOpCode::HeartbeatAck)
            ==> r == Ok::<GatewayRecieveEvent, GatewayError>(GatewayRecieveEvent::HeartbeatAck {}),
        opcode_of(u64_of(field(v, "op"@))->Some_0) == Some(GatewayOpCode::Hello) ==> match u64_of(
            field(body_of(v), "heartbeat_interval"@),
        ) {
            Some(i) => r == Ok::<GatewayRecieveEvent, GatewayError>(
                GatewayRecieveEvent::Hello { heartbeat_info: HeartbeatInfo { heartbeat_interval: i } },
            ),
            None => is_decode_error(r),
        },
        !(opcode_of(u64_of(field(v, "op"@))->Some_0) matches Some(
            GatewayOpCode::Hello | GatewayOpCode::HeartbeatAck,
        )) ==> r == Ok::<GatewayRecieveEvent, GatewayError>(GatewayRecieveEvent::UnwantedEvent {}),
{
}

/// A dispatched frame whose type tag is not a known one is an unwanted
/// event, not an error.
pub proof fn lemma_unknown_tag_is_unwanted(v: JsonValue, r: Result<GatewayRecieveEvent, GatewayError>)
    requires
        receive_of(v, r),
        u64_of(field(v, "op"@)) == Some(0u64),
        str_of(field(v, "t"@)) matches Some(t) && tag_kind(t@) is None,
    ensures
        r == Ok::<GatewayRecieveEvent, GatewayError>(GatewayRecieveEvent::UnwantedEvent {}),
{
}

/// A dispatched frame whose body is an array is an unwanted event, not a
/// decode error, whatever its type tag.
pub proof fn lemma_array_body_is_unwanted(v: JsonValue, r: Result<GatewayRecieveEvent, GatewayError>)
    requires
        receive_of(v, r),
        u64_of(field(v, "op"@)) == Some(0u64),
        is_array(field(v, "d"@)),
    ensures
        r == Ok::<GatewayRecieveEvent, GatewayError>(GatewayRecieveEvent::UnwantedEvent {}),
{
}

/// Two decoded results agree: the same variant, with the same fields, lists
/// by their contents.
pub open spec fn same_receive(a: GatewayRecieveEvent, b: GatewayRecieveEvent) -> bool {
    match (a, b) {
        (
            GatewayRecieveEvent::GeneralEvent { dispatched_event: x },
            GatewayRecieveEvent::GeneralEvent { dispatched_event: y },
        ) => same_event(x, y),
        _ => a == b,
    }
}

/// Decoding is a function of the envelope: decoding one envelope twice
/// succeeds both times or fails both times, and two successes are the same
/// event.
pub proof fn lemma_decode_is_deterministic(
    v: JsonValue,
    r1: Result<GatewayRecieveEvent, GatewayError>,
    r2: Result<GatewayRecieveEvent, GatewayError>,
)
    requires
        receive_of(v, r1),
        receive_of(v, r2),
    ensures
        r1 is Ok <==> r2 is Ok,
        r1 is Ok ==> same_receive(r1->Ok_0, r2->Ok_0),
{
    if let (Ok(GatewayRecieveEvent::GeneralEvent { dispatched_event: x }), Ok(
        GatewayRecieveEvent::GeneralEvent { dispatched_event: y },
    )) = (r1, r2) {
        let t = str_of(field(v, "t"@))->Some_0;
        lemma_payload_of_unique(tag_kind(t@)->Some_0, body_of(v), x, y);
    }
}

} // verus!
