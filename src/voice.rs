//! Voice states and calls.
use vstd::prelude::*;
use crate::json::{
    JsonValue, field, bool_of, list_of, list_ok, string_list_of, string_list_ok, decode_strings,
    lemma_string_list_unique,
};
use crate::model::{
    Snowflake, Timestamp, snowflake_of, opt_snowflake_of, nullable_timestamp_of, get_snowflake, get_opt_snowflake,
    get_nullable_timestamp,
};

verus! {

/// A call in a private channel.
#[derive(Debug)]
pub struct PrivateCallData {
    pub ended_timestamp: Option<Timestamp>,
    pub participant_ids: Vec<String>,
}

/// `x` is what the JSON object `v` describes.
pub open spec fn call_of(v: JsonValue, x: PrivateCallData) -> bool {
    &&& nullable_timestamp_of(field(v, "ended_timestamp"@)) == Some(x.ended_timestamp)
    &&& string_list_of(field(v, "participants"@), x.participant_ids@)
}

/// `v` has every field that it needs, each of the right kind.
pub open spec fn call_ok(v: JsonValue) -> bool {
    &&& nullable_timestamp_of(field(v, "ended_timestamp"@)) is Some
    &&& string_list_ok(field(v, "participants"@))
}

impl PrivateCallData {
    /// Reads the value from a JSON object.
    pub fn from_json(v: &JsonValue) -> (r: Option<PrivateCallData>)
        ensures
            match r {
                Some(x) => call_of(*v, x),
                None => !call_ok(*v),
            },
    {
        let ended_timestamp = match get_nullable_timestamp(v, "ended_timestamp") {
            Some(x) => x,
            None => return None,
        };
        let participant_ids = match decode_strings(v, "participants") {
            Some(x) => x,
            None => return None,
        };
        Some(PrivateCallData { ended_timestamp, participant_ids })
    }
}

pub open spec fn call_field_of(f: Option<JsonValue>, x: PrivateCallData) -> bool {
    match f {
        Some(c) => call_of(c, x),
        None => false,
    }
}

pub open spec fn call_field_ok(f: Option<JsonValue>) -> bool {
    match f {
        Some(c) => call_ok(c),
        None => false,
    }
}

pub fn get_call(v: &JsonValue, key: &str) -> (r: Option<PrivateCallData>)
    ensures
        match r {
            Some(x) => call_field_of(field(*v, key@), x),
            None => !call_field_ok(field(*v, key@)),
        },
{
    match v.get(key) {
        Some(c) => PrivateCallData::from_json(c),
        None => None,
    }
}

/// Two values agree field by field, lists by their contents.
pub open spec fn same_call(a: PrivateCallData, b: PrivateCallData) -> bool {
    &&& a.ended_timestamp == b.ended_timestamp
    &&& a.participant_ids@ == b.participant_ids@
}

/// A JSON object describes at most one such value.
pub proof fn lemma_call_unique(v: JsonValue, a: PrivateCallData, b: PrivateCallData)
    requires
        call_of(v, a),
        call_of(v, b),
    ensures
        same_call(a, b),
{
    lemma_string_list_unique(field(v, "participants"@), a.participant_ids@, b.participant_ids@);
}

pub proof fn lemma_call_field_unique(f: Option<JsonValue>, a: PrivateCallData, b: PrivateCallData)
    requires
        call_field_of(f, a),
        call_field_of(f, b),
    ensures
        same_call(a, b),
{
    if let Some(c) = f {
        lemma_call_unique(c, a, b);
    }
}

/// Where a user stands in voice.
#[derive(Debug)]
pub struct UserVoiceState {
    pub channel_id: Option<Snowflake>,
    pub deaf: bool,
    pub mute: bool,
    pub request_to_speak_timestamp: Option<Timestamp>,
    pub self_deaf: bool,
    pub self_mute: bool,
    pub self_video: bool,
    pub session_id: Snowflake,
    pub suppress: bool,
    pub user_id: Snowflake,
}

/// What the JSON object `v` describes.
pub open spec fn voice_state_of(v: JsonValue) -> Option<UserVoiceState> {
    match (
        opt_snowflake_of(field(v, "channel_id"@)),
        bool_of(field(v, "deaf"@)),
        bool_of(field(v, "mute"@)),
        nullable_timestamp_of(field(v, "request_to_speak_timestamp"@)),
        bool_of(field(v, "self_deaf"@)),
        bool_of(field(v, "self_mute"@)),
        bool_of(field(v, "self_video"@)),
        snowflake_of(field(v, "session_id"@)),
        bool_of(field(v, "suppress"@)),
        snowflake_of(field(v, "user_id"@)),
    ) {
        (Some(channel_id), Some(deaf), Some(mute), Some(request_to_speak_timestamp), Some(self_deaf), Some(self_mute), Some(self_video), Some(session_id), Some(suppress), Some(user_id)) => Some(UserVoiceState { channel_id, deaf, mute, request_to_speak_timestamp, self_deaf, self_mute, self_video, session_id, suppress, user_id }),
        _ => None,
    }
}

impl UserVoiceState {
    /// Reads the value from a JSON object.
    pub fn from_json(v: &JsonValue) -> (r: Option<UserVoiceState>)
        ensures
            r == voice_state_of(*v),
    {
        let channel_id = match get_opt_snowflake(v, "channel_id") {
            Some(x) => x,
            None => return None,
        };
        let deaf = match v.get_bool("deaf") {
            Some(x) => x,
            None => return None,
        };
        let mute = match v.get_bool("mute") {
            Some(x) => x,
            None => return None,
        };
        let request_to_speak_timestamp = match get_nullable_timestamp(v, "request_to_speak_timestamp") {
            Some(x) => x,
            None => return None,
        };
        let self_deaf = match v.get_bool("self_deaf") {
            Some(x) => x,
            None => return None,
        };
        let self_mute = match v.get_bool("self_mute") {
            Some(x) => x,
            None => return None,
        };
        let self_video = match v.get_bool("self_video") {
            Some(x) => x,
            None => return None,
        };
        let session_id = match get_snowflake(v, "session_id") {
            Some(x) => x,
            None => return None,
        };
        let suppress = match v.get_bool("suppress") {
            Some(x) => x,
            None => return None,
        };
        let user_id = match get_snowflake(v, "user_id") {
            Some(x) => x,
            None => return None,
        };
        Some(UserVoiceState { channel_id, deaf, mute, request_to_speak_timestamp, self_deaf, self_mute, self_video, session_id, suppress, user_id })
    }
}

/// Reads an array of `UserVoiceState`, element by element.
pub fn decode_voice_states(v: &JsonValue, key: &str) -> (r: Option<Vec<UserVoiceState>>)
    ensures
        match r {
            Some(out) => list_of(field(*v, key@), out@, |x: JsonValue| voice_state_of(x)),
            None => !list_ok(field(*v, key@), |x: JsonValue| voice_state_of(x)),
        },
{
    let items = match v.get(key) {
        Some(JsonValue::Array(items)) => items,
        _ => return None,
    };
    let mut out: Vec<UserVoiceState> = Vec::new();
    let mut i: usize = 0;
    while i < items.len()
        invariant
            field(*v, key@) == Some(JsonValue::Array(*items)),
            i <= items@.len(),
            out@.len() == i,
            forall|j: int| 0 <= j < i ==> voice_state_of(items@[j]) == Some(#[trigger] out@[j]),
        decreases items@.len() - i,
    {
        match UserVoiceState::from_json(&items[i]) {
            Some(x) => out.push(x),
            None => {
                assert((|x: JsonValue| voice_state_of(x))(items@[i as int]) is None);
                return None;
            },
        }
        i = i + 1;
    }
    Some(out)
}

} // verus!
