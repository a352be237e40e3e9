//! Identifiers and instants shared by the data model.
use vstd::prelude::*;
use crate::json::{JsonValue, field, str_of};

verus! {

/// The identifier of an object of the platform, kept as the decimal text it
/// is sent as.
#[derive(Debug, Clone, PartialEq, Eq)]
pub struct Snowflake {
    pub snowflake_str: String,
}

/// Implemented by every object of the platform that carries an identifier.
pub trait ID {
    fn id(&self) -> &Snowflake;
}

impl Snowflake {
    pub fn new(string: &str) -> (r: Snowflake)
        ensures
            r.snowflake_str@ == string@,
    {
        Snowflake { snowflake_str: string.to_owned() }
    }

    /// The identifier's text, as it is written in URLs and logs.
    pub fn as_str(&self) -> (r: &str)
        ensures
            r@ == self.snowflake_str@,
    {
        self.snowflake_str.as_str()
    }
}

/// An instant, in nanoseconds since the Unix epoch.
#[derive(Debug, Clone, Copy, PartialEq, Eq)]
pub struct Timestamp {
    pub unix_nanos: i128,
}

/// The instant that an ISO 8601 date-time text names, in nanoseconds since the Unix epoch.
pub uninterp spec fn iso8601_instant(text: Seq<char>) -> Option<int>;

/// Relies on time::OffsetDateTime::parse with the well-known ISO 8601
/// format: a date-time text is read as one instant or refused, the same text
/// always alike.
#[verifier::external_body]
fn parse_iso8601(text: &str) -> (r: Option<i128>)
    ensures
        match r {
            Some(n) => iso8601_instant(text@) == Some(n as int),
            None => iso8601_instant(text@) is None,
        },
{
    let format = time::format_description::well_known::Iso8601::DEFAULT;
    time::OffsetDateTime::parse(text, &format).ok().map(|t| t.unix_timestamp_nanos())
}

pub open spec fn snowflake_of(v: Option<JsonValue>) -> Option<Snowflake> {
    match str_of(v) {
        Some(s) => Some(Snowflake { snowflake_str: s }),
        None => None,
    }
}

pub open spec fn opt_snowflake_of(v: Option<JsonValue>) -> Option<Option<Snowflake>> {
    match v {
        None => Some(None),
        Some(JsonValue::Null) => Some(None),
        Some(JsonValue::Str(s)) => Some(Some(Snowflake { snowflake_str: s })),
        _ => None,
    }
}

pub open spec fn timestamp_of(v: Option<JsonValue>) -> Option<Timestamp> {
    match str_of(v) {
        Some(s) => match iso8601_instant(s@) {
            Some(n) => Some(Timestamp { unix_nanos: n as i128 }),
            None => None,
        },
        None => None,
    }
}

/// An optional instant: absent or null reads as `Some(None)`.
pub open spec fn opt_timestamp_of(v: Option<JsonValue>) -> Option<Option<Timestamp>> {
    match v {
        None => Some(None),
        Some(JsonValue::Null) => Some(None),
        _ => match timestamp_of(v) {
            Some(t) => Some(Some(t)),
            None => None,
        },
    }
}

/// The identifier under `key`.
pub fn get_snowflake(v: &JsonValue, key: &str) -> (r: Option<Snowflake>)
    ensures
        r == snowflake_of(field(*v, key@)),
{
    match v.get_string(key) {
        Some(s) => Some(Snowflake { snowflake_str: s }),
        None => None,
    }
}

/// The optional identifier under `key`.
pub fn get_opt_snowflake(v: &JsonValue, key: &str) -> (r: Option<Option<Snowflake>>)
    ensures
        r == opt_snowflake_of(field(*v, key@)),
{
    match v.get_opt_string(key) {
        Some(Some(s)) => Some(Some(Snowflake { snowflake_str: s })),
        Some(None) => Some(None),
        None => None,
    }
}

/// The instant written under `key` as an ISO 8601 text.
pub fn get_timestamp(v: &JsonValue, key: &str) -> (r: Option<Timestamp>)
    ensures
        r == timestamp_of(field(*v, key@)),
{
    match v.get(key) {
        Some(JsonValue::Str(s)) => match parse_iso8601(s.as_str()) {
            Some(n) => Some(Timestamp { unix_nanos: n }),
            None => None,
        },
        _ => None,
    }
}

/// The optional instant under `key`.
pub fn get_opt_timestamp(v: &JsonValue, key: &str) -> (r: Option<Option<Timestamp>>)
    ensures
        r == opt_timestamp_of(field(*v, key@)),
{
    match v.get(key) {
        None => Some(None),
        Some(JsonValue::Null) => Some(None),
        Some(_) => match get_timestamp(v, key) {
            Some(t) => Some(Some(t)),
            None => None,
        },
    }
}

/// An instant that must be present but may be null.
pub open spec fn nullable_timestamp_of(v: Option<JsonValue>) -> Option<Option<Timestamp>> {
    match v {
        None => None,
        Some(JsonValue::Null) => Some(None),
        _ => match timestamp_of(v) {
            Some(t) => Some(Some(t)),
            None => None,
        },
    }
}

/// The instant under `key`, which must be there but may be null.
pub fn get_nullable_timestamp(v: &JsonValue, key: &str) -> (r: Option<Option<Timestamp>>)
    ensures
        r == nullable_timestamp_of(field(*v, key@)),
{
    match v.get(key) {
        None => None,
        Some(JsonValue::Null) => Some(None),
        Some(_) => match get_timestamp(v, key) {
            Some(t) => Some(Some(t)),
            None => None,
        },
    }
}

} // verus!
