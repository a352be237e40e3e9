//! Payloads the client sends: the login (identify) and the heartbeat.
use vstd::prelude::*;
use crate::json::{JsonValue, encode_json, json_text};

verus! {

/// A frame to send: an opcode and its body.
#[derive(Debug)]
pub struct GatewaySendEventRaw {
    pub op: u32,
    pub d: JsonValue,
}

/// Describes the client to the server.
#[derive(Debug)]
pub struct Properties {
    pub os: String,
    pub browser: String,
    pub system_locale: String,
    pub browser_user_agent: String,
}

/// The presence the client starts with.
#[derive(Debug)]
pub struct Presence {
    pub status: String,
    pub since: u64,
    pub activities: Vec<String>,
    pub afk: bool,
    pub broadcast: Option<String>,
}

/// The client's cached state: a version number per guild.
#[derive(Debug)]
pub struct ClientState {
    pub guild_versions: Vec<(String, u32)>,
}

/// `v` is the object whose members are `keys` and `values`, in that order.
pub open spec fn is_object_of(v: JsonValue, keys: Seq<Seq<char>>, values: Seq<JsonValue>) -> bool {
    match v {
        JsonValue::Object(m) => {
            &&& m@.len() == keys.len()
            &&& keys.len() == values.len()
            &&& forall|i: int| 0 <= i < keys.len() ==> (#[trigger] m@[i]).0@ == keys[i] && m@[i].1 == values[i]
        },
        _ => false,
    }
}

/// `v` is the array of the strings `items`, in order.
pub open spec fn is_string_array(v: JsonValue, items: Seq<String>) -> bool {
    match v {
        JsonValue::Array(a) => a@.len() == items.len() && forall|i: int|
            0 <= i < items.len() ==> #[trigger] a@[i] == JsonValue::Str(items[i]),
        _ => false,
    }
}

/// `v` is the frame `{"op": op, "d": d}`.
pub open spec fn is_send_envelope(v: JsonValue, op: u32, d: JsonValue) -> bool {
    is_object_of(v, seq!["op"@, "d"@], seq![JsonValue::UInt(op as u64), d])
}

/// `v` is the JSON form of `p`.
pub open spec fn properties_json(v: JsonValue, p: Properties) -> bool {
    is_object_of(
        v,
        seq!["os"@, "browser"@, "system_locale"@, "browser_user_agent"@],
        seq![
            JsonValue::Str(p.os),
            JsonValue::Str(p.browser),
            JsonValue::Str(p.system_locale),
            JsonValue::Str(p.browser_user_agent),
        ],
    )
}

/// `v` is the JSON form of `p`.
pub open spec fn presence_json(v: JsonValue, p: Presence) -> bool {
    match v {
        JsonValue::Object(m) => m@.len() == 5 && {
            &&& m@[0].0@ == "status"@ && m@[0].1 == JsonValue::Str(p.status)
            &&& m@[1].0@ == "since"@ && m@[1].1 == JsonValue::UInt(p.since)
            &&& m@[2].0@ == "activities"@ && is_string_array(m@[2].1, p.activities@)
            &&& m@[3].0@ == "afk"@ && m@[3].1 == JsonValue::Bool(p.afk)
            &&& m@[4].0@ == "broadcast"@ && m@[4].1 == match p.broadcast {
                Some(b) => JsonValue::Str(b),
                None => JsonValue::Null,
            }
        },
        _ => false,
    }
}

/// `v` is the JSON form of `c`: the guild versions as an object, in order.
pub open spec fn client_state_json(v: JsonValue, c: ClientState) -> bool {
    match v {
        JsonValue::Object(m) => m@.len() == 1 && m@[0].0@ == "guild_versions"@ && match m@[0].1 {
            JsonValue::Object(g) => g@.len() == c.guild_versions@.len() && forall|i: int|
                0 <= i < g@.len() ==> (#[trigger] g@[i]).0 == c.guild_versions@[i].0 && g@[i].1
                    == JsonValue::UInt(c.guild_versions@[i].1 as u64),
            _ => false,
        },
        _ => false,
    }
}

fn entry(key: &str, value: JsonValue) -> (r: (String, JsonValue))
    ensures
        r.0@ == key@,
        r.1 == value,
{
    (key.to_owned(), value)
}

fn opt_string(s: Option<String>) -> (r: JsonValue)
    ensures
        r == match s {
            Some(t) => JsonValue::Str(t),
            None => JsonValue::Null,
        },
{
    match s {
        Some(t) => JsonValue::Str(t),
        None => JsonValue::Null,
    }
}

impl Properties {
    pub fn into_json(self) -> (r: JsonValue)
        ensures
            properties_json(r, self),
    {
        let mut m: Vec<(String, JsonValue)> = Vec::new();
        m.push(entry("os", JsonValue::Str(self.os)));
        m.push(entry("browser", JsonValue::Str(self.browser)));
        m.push(entry("system_locale", JsonValue::Str(self.system_locale)));
        m.push(entry("browser_user_agent", JsonValue::Str(self.browser_user_agent)));
        JsonValue::Object(m)
    }
}

impl Presence {
    pub fn into_json(self) -> (r: JsonValue)
        ensures
            presence_json(r, self),
    {
        let mut items: Vec<JsonValue> = Vec::new();
        let mut i: usize = 0;
        while i < self.activities.len()
            invariant
                i <= self.activities@.len(),
                items@.len() == i,
                forall|j: int| 0 <= j < i ==> #[trigger] items@[j] == JsonValue::Str(self.activities@[j]),
            decreases self.activities@.len() - i,
        {
            items.push(JsonValue::Str(self.activities[i].clone()));
            i = i + 1;
        }
        let mut m: Vec<(String, JsonValue)> = Vec::new();
        m.push(entry("status", JsonValue::Str(self.status)));
        m.push(entry("since", JsonValue::UInt(self.since)));
        m.push(entry("activities", JsonValue::Array(items)));
        m.push(entry("afk", JsonValue::Bool(self.afk)));
        m.push(entry("broadcast", opt_string(self.broadcast)));
        JsonValue::Object(m)
    }
}

impl ClientState {
    pub fn into_json(self) -> (r: JsonValue)
        ensures
            client_state_json(r, self),
    {
        let mut g: Vec<(String, JsonValue)> = Vec::new();
        let mut i: usize = 0;
        while i < self.guild_versions.len()
            invariant
                i <= self.guild_versions@.len(),
                g@.len() == i,
                forall|j: int| 0 <= j < i ==> (#[trigger] g@[j]).0 == self.guild_versions@[j].0 && g@[j].1
                    == JsonValue::UInt(self.guild_versions@[j].1 as u64),
            decreases self.guild_versions@.len() - i,
        {
            let (key, version) = &self.guild_versions[i];
            g.push((key.clone(), JsonValue::UInt(*version as u64)));
            i = i + 1;
        }
        let mut m: Vec<(String, JsonValue)> = Vec::new();
        m.push(entry("guild_versions", JsonValue::Object(g)));
        JsonValue::Object(m)
    }
}

impl GatewaySendEventRaw {
    /// The heartbeat frame, carrying the last sequence number seen.
    pub fn heartbeat(sequence: u64) -> (r: GatewaySendEventRaw)
        ensures
            r.op == 1,
            r.d == JsonValue::UInt(sequence),
    {
        GatewaySendEventRaw { op: 1, d: JsonValue::UInt(sequence) }
    }

    /// The login (identify) frame.
    pub fn login(
        token: String,
        capabilities: u32,
        properties: Properties,
        presence: Presence,
        compress: bool,
        client_state: ClientState,
    ) -> (r: GatewaySendEventRaw)
        ensures
            r.op == 2,
            r.d matches JsonValue::Object(m) && m@.len() == 6 && {
                &&& m@[0].0@ == "token"@ && m@[0].1 == JsonValue::Str(token)
                &&& m@[1].0@ == "capabilities"@ && m@[1].1 == JsonValue::UInt(capabilities as u64)
                &&& m@[2].0@ == "properties"@ && properties_json(m@[2].1, properties)
                &&& m@[3].0@ == "presence"@ && presence_json(m@[3].1, presence)
                &&& m@[4].0@ == "compress"@ && m@[4].1 == JsonValue::Bool(compress)
                &&& m@[5].0@ == "client_state"@ && client_state_json(m@[5].1, client_state)
            },
    {
        let mut m: Vec<(String, JsonValue)> = Vec::new();
        m.push(entry("token", JsonValue::Str(token)));
        m.push(entry("capabilities", JsonValue::UInt(capabilities as u64)));
        m.push(entry("properties", properties.into_json()));
        m.push(entry("presence", presence.into_json()));
        m.push(entry("compress", JsonValue::Bool(compress)));
        m.push(entry("client_state", client_state.into_json()));
        GatewaySendEventRaw { op: 2, d: JsonValue::Object(m) }
    }

    /// The frame as the object `{"op": .., "d": ..}`.
    pub fn into_json(self) -> (r: JsonValue)
        ensures
            is_send_envelope(r, self.op, self.d),
    {
        let mut m: Vec<(String, JsonValue)> = Vec::new();
        m.push(entry("op", JsonValue::UInt(self.op as u64)));
        m.push(entry("d", self.d));
        let r = JsonValue::Object(m);
        assert(is_object_of(r, seq!["op"@, "d"@], seq![JsonValue::UInt(self.op as u64), self.d]));
        r
    }

    /// The frame's JSON text.
    pub fn into_text(self) -> (r: String)
        ensures
            exists|v: JsonValue| is_send_envelope(v, self.op, self.d) && r@ == json_text(v),
    {
        let v = self.into_json();
        encode_json(&v)
    }
}

} // verus!
