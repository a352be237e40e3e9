//! The parts of the REST layer that decide: error codes, page sizes and the
//! body of a new message.
use vstd::prelude::*;
use crate::json::{JsonValue, field};
use crate::model::Snowflake;

verus! {

/// The error codes that the client tells apart.
#[derive(Debug, Clone, Copy, PartialEq, Eq, Structural)]
pub enum DiscordErrorCode {
    Unauthorized,
    WriteChannelRateLimitReached,
    Unknown,
}

impl DiscordErrorCode {
    pub fn from_i64(code: i64) -> (r: DiscordErrorCode)
        ensures
            r == if code == 0 {
                DiscordErrorCode::Unauthorized
            } else if code == 20028 {
                DiscordErrorCode::WriteChannelRateLimitReached
            } else {
                DiscordErrorCode::Unknown
            },
    {
        if code == 0 {
            DiscordErrorCode::Unauthorized
        } else if code == 20028 {
            DiscordErrorCode::WriteChannelRateLimitReached
        } else {
            DiscordErrorCode::Unknown
        }
    }
}

/// The error code that a response body reports, if it reports one: a body
/// is an error exactly when it has a `code` field.
pub fn response_error_code(v: &JsonValue) -> (r: Option<DiscordErrorCode>)
    ensures
        r is Some <==> field(*v, "code"@) is Some,
        field(*v, "code"@) == Some(JsonValue::UInt(0)) ==> r == Some(DiscordErrorCode::Unauthorized),
        field(*v, "code"@) == Some(JsonValue::UInt(20028)) ==> r == Some(
            DiscordErrorCode::WriteChannelRateLimitReached,
        ),
        (field(*v, "code"@) is Some && field(*v, "code"@) != Some(JsonValue::UInt(0)) && field(*v, "code"@)
            != Some(JsonValue::UInt(20028))) ==> r == Some(DiscordErrorCode::Unknown),
{
    match v.get("code") {
        None => None,
        Some(JsonValue::UInt(n)) => if *n == 0 {
            Some(DiscordErrorCode::Unauthorized)
        } else if *n == 20028 {
            Some(DiscordErrorCode::WriteChannelRateLimitReached)
        } else {
            Some(DiscordErrorCode::Unknown)
        },
        Some(_) => Some(DiscordErrorCode::Unknown),
    }
}

/// How many messages each history request asks for.
#[derive(Debug, Clone, Copy, PartialEq, Eq, Structural)]
pub enum MessageFetchRate {
    /// 50 per request, as the official client does.
    Default,
    /// 100 per request, the most the platform allows.
    Max,
    /// Must be above 0 and at most 100.
    Custom { per_request: u8 },
}

impl MessageFetchRate {
    /// The page size of a history request.
    pub fn limit(&self) -> (r: u8)
        ensures
            r == match *self {
                MessageFetchRate::Default => 50u8,
                MessageFetchRate::Max => 100u8,
                MessageFetchRate::Custom { per_request } => per_request,
            },
    {
        match self {
            MessageFetchRate::Default => 50,
            MessageFetchRate::Max => 100,
            MessageFetchRate::Custom { per_request } => *per_request,
        }
    }
}

/// The body of a new message.
#[derive(Debug)]
pub struct MessagePostData {
    pub content: String,
}

impl MessagePostData {
    pub fn new(content: &String) -> (r: MessagePostData)
        ensures
            r.content == *content,
    {
        MessagePostData { content: content.clone() }
    }

    /// The body as the JSON object `{"content": ..}`.
    pub fn into_json(self) -> (r: JsonValue)
        ensures
            r matches JsonValue::Object(m) && m@.len() == 1 && m@[0].0@ == "content"@ && m@[0].1
                == JsonValue::Str(self.content),
    {
        let mut m: Vec<(String, JsonValue)> = Vec::new();
        m.push((String::from_str("content"), JsonValue::Str(self.content)));
        JsonValue::Object(m)
    }
}

/// The body that opens a private channel with `recipient_ids`:
/// `{"recipients": [ids...]}`.
pub fn open_channel_body(recipient_ids: &[Snowflake]) -> (r: JsonValue)
    ensures
        r matches JsonValue::Object(m) && m@.len() == 1 && m@[0].0@ == "recipients"@ && (
        m@[0].1 matches JsonValue::Array(a) && a@.len() == recipient_ids@.len() && forall|i: int|
            0 <= i < a@.len() ==> #[trigger] a@[i] == JsonValue::Str(recipient_ids@[i].snowflake_str)),
{
    let mut ids: Vec<JsonValue> = Vec::new();
    let mut i: usize = 0;
    while i < recipient_ids.len()
        invariant
            i <= recipient_ids@.len(),
            ids@.len() == i,
            forall|j: int| 0 <= j < i ==> #[trigger] ids@[j] == JsonValue::Str(recipient_ids@[j].snowflake_str),
        decreases recipient_ids@.len() - i,
    {
        ids.push(JsonValue::Str(recipient_ids[i].snowflake_str.clone()));
        i = i + 1;
    }
    let mut m: Vec<(String, JsonValue)> = Vec::new();
    m.push((String::from_str("recipients"), JsonValue::Array(ids)));
    JsonValue::Object(m)
}

} // verus!
