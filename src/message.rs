//! Messages as the platform describes them.
use vstd::prelude::*;
use crate::json::{
    JsonValue, field, u64_of, str_of, bool_of, list_of, list_ok, opt_list_of, opt_list_ok, lemma_list_of_unique,
    string_list_of, string_list_ok, decode_strings, lemma_string_list_unique,
};
use crate::guild::{
    GuildMemberData, Data, Metadata, opt_member_field_of, opt_member_field_ok, get_opt_member, same_opt_member,
    lemma_opt_member_field_unique, interaction_field_of, interaction_field_ok, get_interaction, same_interaction,
    lemma_interaction_field_unique, metadata_field_of, get_metadata,
};
use crate::voice::{PrivateCallData, call_field_of, call_field_ok, get_call, same_call, lemma_call_field_unique};
use crate::model::{
    Snowflake, Timestamp, ID, snowflake_of, opt_snowflake_of, timestamp_of, opt_timestamp_of, get_snowflake,
    get_opt_snowflake, get_timestamp, get_opt_timestamp,
};
use crate::user::{UserData, user_data_of, user_field_of, get_user};

verus! {

/// A custom emoji.
#[derive(Debug)]
pub struct Emoji {
    pub animated: bool,
    pub id: Snowflake,
    pub name: String,
}

#[derive(Debug)]
pub struct MessageAttachment {
    pub id: Snowflake,
}

#[derive(Debug)]
pub struct MessageComponent {
    /// The component's numeric type.
    pub kind: u64,
}

#[derive(Debug)]
pub struct MessageEmbed {
    /// The embed's type name.
    pub kind: String,
}

/// What every message carries, whatever its type.
#[derive(Debug)]
pub struct GeneralMessageData {
    pub id: Snowflake,
    pub channel_id: Snowflake,
    pub timestamp: Timestamp,
    pub flags: u64,
    pub attachments: Vec<MessageAttachment>,
    pub embeds: Vec<MessageEmbed>,
    pub components: Vec<MessageComponent>,
}

/// A plain text message.
#[derive(Debug)]
pub struct DefaultMessageData {
    pub general: GeneralMessageData,
    pub content: String,
    pub author: UserData,
    pub pinned: bool,
    pub mention_everyone: bool,
    pub tts: bool,
    pub edited_timestamp: Option<Timestamp>,
}

pub open spec fn attachment_of(v: JsonValue) -> Option<MessageAttachment> {
    match snowflake_of(field(v, "id"@)) {
        Some(id) => Some(MessageAttachment { id }),
        None => None,
    }
}

pub open spec fn component_of(v: JsonValue) -> Option<MessageComponent> {
    match u64_of(field(v, "type"@)) {
        Some(kind) => Some(MessageComponent { kind }),
        None => None,
    }
}

pub open spec fn embed_of(v: JsonValue) -> Option<MessageEmbed> {
    match str_of(field(v, "type"@)) {
        Some(kind) => Some(MessageEmbed { kind }),
        None => None,
    }
}

/// `g` is what the JSON object `v` says every message carries.
pub open spec fn general_of(v: JsonValue, g: GeneralMessageData) -> bool {
    &&& snowflake_of(field(v, "id"@)) == Some(g.id)
    &&& snowflake_of(field(v, "channel_id"@)) == Some(g.channel_id)
    &&& timestamp_of(field(v, "timestamp"@)) == Some(g.timestamp)
    &&& u64_of(field(v, "flags"@)) == Some(g.flags)
    &&& list_of(field(v, "attachments"@), g.attachments@, |x: JsonValue| attachment_of(x))
    &&& list_of(field(v, "embeds"@), g.embeds@, |x: JsonValue| embed_of(x))
    &&& list_of(field(v, "components"@), g.components@, |x: JsonValue| component_of(x))
}

/// `v` holds every field that every message carries, each of the right kind.
pub open spec fn general_ok(v: JsonValue) -> bool {
    &&& snowflake_of(field(v, "id"@)) is Some
    &&& snowflake_of(field(v, "channel_id"@)) is Some
    &&& timestamp_of(field(v, "timestamp"@)) is Some
    &&& u64_of(field(v, "flags"@)) is Some
    &&& list_ok(field(v, "attachments"@), |x: JsonValue| attachment_of(x))
    &&& list_ok(field(v, "embeds"@), |x: JsonValue| embed_of(x))
    &&& list_ok(field(v, "components"@), |x: JsonValue| component_of(x))
}

/// `m` is what the JSON object `v` says a plain text message is.
pub open spec fn default_of(v: JsonValue, m: DefaultMessageData) -> bool {
    &&& general_of(v, m.general)
    &&& str_of(field(v, "content"@)) == Some(m.content)
    &&& match field(v, "author"@) {
        Some(a) => user_data_of(a) == Some(m.author),
        None => false,
    }
    &&& bool_of(field(v, "pinned"@)) == Some(m.pinned)
    &&& bool_of(field(v, "mention_everyone"@)) == Some(m.mention_everyone)
    &&& bool_of(field(v, "tts"@)) == Some(m.tts)
    &&& opt_timestamp_of(field(v, "edited_timestamp"@)) == Some(m.edited_timestamp)
}

pub open spec fn default_ok(v: JsonValue) -> bool {
    &&& general_ok(v)
    &&& str_of(field(v, "content"@)) is Some
    &&& match field(v, "author"@) {
        Some(a) => user_data_of(a) is Some,
        None => false,
    }
    &&& bool_of(field(v, "pinned"@)) is Some
    &&& bool_of(field(v, "mention_everyone"@)) is Some
    &&& bool_of(field(v, "tts"@)) is Some
    &&& opt_timestamp_of(field(v, "edited_timestamp"@)) is Some
}

/// The message types that the platform documents.
pub open spec fn is_known_message_type(t: u64) -> bool {
    t <= 12 || (14 <= t <= 29) || t == 31 || t == 32 || (36 <= t <= 39) || t == 44
}

pub(crate) fn decode_attachments(v: &JsonValue, key: &str) -> (r: Option<Vec<MessageAttachment>>)
    ensures
        match r {
            Some(out) => list_of(field(*v, key@), out@, |x: JsonValue| attachment_of(x)),
            None => !list_ok(field(*v, key@), |x: JsonValue| attachment_of(x)),
        },
{
    let items = match v.get(key) {
        Some(JsonValue::Array(items)) => items,
        _ => return None,
    };
    let mut out: Vec<MessageAttachment> = Vec::new();
    let mut i: usize = 0;
    while i < items.len()
        invariant
            field(*v, key@) == Some(JsonValue::Array(*items)),
            i <= items@.len(),
            out@.len() == i,
            forall|j: int| 0 <= j < i ==> attachment_of(items@[j]) == Some(#[trigger] out@[j]),
        decreases items@.len() - i,
    {
        match get_snowflake(&items[i], "id") {
            Some(id) => out.push(MessageAttachment { id }),
            None => {
                assert((|x: JsonValue| attachment_of(x))(items@[i as int]) is None);
                return None;
            },
        }
        i = i + 1;
    }
    Some(out)
}

pub(crate) fn decode_embeds(v: &JsonValue, key: &str) -> (r: Option<Vec<MessageEmbed>>)
    ensures
        match r {
            Some(out) => list_of(field(*v, key@), out@, |x: JsonValue| embed_of(x)),
            None => !list_ok(field(*v, key@), |x: JsonValue| embed_of(x)),
        },
{
    let items = match v.get(key) {
        Some(JsonValue::Array(items)) => items,
        _ => return None,
    };
    let mut out: Vec<MessageEmbed> = Vec::new();
    let mut i: usize = 0;
    while i < items.len()
        invariant
            field(*v, key@) == Some(JsonValue::Array(*items)),
            i <= items@.len(),
            out@.len() == i,
            forall|j: int| 0 <= j < i ==> embed_of(items@[j]) == Some(#[trigger] out@[j]),
        decreases items@.len() - i,
    {
        match items[i].get_string("type") {
            Some(kind) => out.push(MessageEmbed { kind }),
            None => {
                assert((|x: JsonValue| embed_of(x))(items@[i as int]) is None);
                return None;
            },
        }
        i = i + 1;
    }
    Some(out)
}

pub(crate) fn decode_components(v: &JsonValue, key: &str) -> (r: Option<Vec<MessageComponent>>)
    ensures
        match r {
            Some(out) => list_of(field(*v, key@), out@, |x: JsonValue| component_of(x)),
            None => !list_ok(field(*v, key@), |x: JsonValue| component_of(x)),
        },
{
    let items = match v.get(key) {
        Some(JsonValue::Array(items)) => items,
        _ => return None,
    };
    let mut out: Vec<MessageComponent> = Vec::new();
    let mut i: usize = 0;
    while i < items.len()
        invariant
            field(*v, key@) == Some(JsonValue::Array(*items)),
            i <= items@.len(),
            out@.len() == i,
            forall|j: int| 0 <= j < i ==> component_of(items@[j]) == Some(#[trigger] out@[j]),
        decreases items@.len() - i,
    {
        match items[i].get_u64("type") {
            Some(kind) => out.push(MessageComponent { kind }),
            None => {
                assert((|x: JsonValue| component_of(x))(items@[i as int]) is None);
                return None;
            },
        }
        i = i + 1;
    }
    Some(out)
}

impl GeneralMessageData {
    /// Reads what every message carries from a JSON object.
    pub fn from_json(v: &JsonValue) -> (r: Option<GeneralMessageData>)
        ensures
            match r {
                Some(g) => general_of(*v, g),
                None => !general_ok(*v),
            },
    {
        let id = match get_snowflake(v, "id") {
            Some(x) => x,
            None => return None,
        };
        let channel_id = match get_snowflake(v, "channel_id") {
            Some(x) => x,
            None => return None,
        };
        let timestamp = match get_timestamp(v, "timestamp") {
            Some(x) => x,
            None => return None,
        };
        let flags = match v.get_u64("flags") {
            Some(x) => x,
            None => return None,
        };
        let attachments = match decode_attachments(v, "attachments") {
            Some(x) => x,
            None => return None,
        };
        let embeds = match decode_embeds(v, "embeds") {
            Some(x) => x,
            None => return None,
        };
        let components = match decode_components(v, "components") {
            Some(x) => x,
            None => return None,
        };
        Some(GeneralMessageData { id, channel_id, timestamp, flags, attachments, embeds, components })
    }
}

impl DefaultMessageData {
    /// Reads a plain text message from a JSON object.
    pub fn from_json(v: &JsonValue) -> (r: Option<DefaultMessageData>)
        ensures
            match r {
                Some(m) => default_of(*v, m),
                None => !default_ok(*v),
            },
    {
        let general = match GeneralMessageData::from_json(v) {
            Some(x) => x,
            None => return None,
        };
        let content = match v.get_string("content") {
            Some(x) => x,
            None => return None,
        };
        let author = match v.get("author") {
            Some(a) => match UserData::from_json(a) {
                Some(x) => x,
                None => return None,
            },
            None => return None,
        };
        let pinned = match v.get_bool("pinned") {
            Some(x) => x,
            None => return None,
        };
        let mention_everyone = match v.get_bool("mention_everyone") {
            Some(x) => x,
            None => return None,
        };
        let tts = match v.get_bool("tts") {
            Some(x) => x,
            None => return None,
        };
        let edited_timestamp = match get_opt_timestamp(v, "edited_timestamp") {
            Some(x) => x,
            None => return None,
        };
        Some(DefaultMessageData { general, content, author, pinned, mention_everyone, tts, edited_timestamp })
    }

    /// Whether `user_id` wrote this message.
    pub fn is_author(&self, user_id: &Snowflake) -> (r: bool)
        ensures
            r == (user_id.snowflake_str@ == self.author.id.snowflake_str@),
    {
        user_id.snowflake_str == self.author.id.snowflake_str
    }
}

/// Two readings of what every message carries agree field by field, lists by their contents.
pub open spec fn same_general(a: GeneralMessageData, b: GeneralMessageData) -> bool {
    &&& a.id == b.id
    &&& a.channel_id == b.channel_id
    &&& a.timestamp == b.timestamp
    &&& a.flags == b.flags
    &&& a.attachments@ == b.attachments@
    &&& a.embeds@ == b.embeds@
    &&& a.components@ == b.components@
}

/// Reads an optional list of embeds; absent or null reads as none.
pub(crate) fn decode_opt_embeds(v: &JsonValue, key: &str) -> (r: Option<Option<Vec<MessageEmbed>>>)
    ensures
        match r {
            Some(out) => opt_list_of(field(*v, key@), out, |x: JsonValue| embed_of(x)),
            None => !opt_list_ok(field(*v, key@), |x: JsonValue| embed_of(x)),
        },
{
    match v.get(key) {
        None => Some(None),
        Some(JsonValue::Null) => Some(None),
        Some(_) => match decode_embeds(v, key) {
            Some(out) => Some(Some(out)),
            None => None,
        },
    }
}

/// Reads an optional list of components; absent or null reads as none.
pub(crate) fn decode_opt_components(v: &JsonValue, key: &str) -> (r: Option<Option<Vec<MessageComponent>>>)
    ensures
        match r {
            Some(out) => opt_list_of(field(*v, key@), out, |x: JsonValue| component_of(x)),
            None => !opt_list_ok(field(*v, key@), |x: JsonValue| component_of(x)),
        },
{
    match v.get(key) {
        None => Some(None),
        Some(JsonValue::Null) => Some(None),
        Some(_) => match decode_components(v, key) {
            Some(out) => Some(Some(out)),
            None => None,
        },
    }
}

/// Reads an optional list of attachments; absent or null reads as none.
pub(crate) fn decode_opt_attachments(v: &JsonValue, key: &str) -> (r: Option<Option<Vec<MessageAttachment>>>)
    ensures
        match r {
            Some(out) => opt_list_of(field(*v, key@), out, |x: JsonValue| attachment_of(x)),
            None => !opt_list_ok(field(*v, key@), |x: JsonValue| attachment_of(x)),
        },
{
    match v.get(key) {
        None => Some(None),
        Some(JsonValue::Null) => Some(None),
        Some(_) => match decode_attachments(v, key) {
            Some(out) => Some(Some(out)),
            None => None,
        },
    }
}

/// A message that records a call.
#[derive(Debug)]
pub struct CallMessageData {
    pub general: GeneralMessageData,
    pub caller: UserData,
    pub call: PrivateCallData,
}

/// `x` is what the JSON object `v` describes.
pub open spec fn call_message_of(v: JsonValue, x: CallMessageData) -> bool {
    &&& general_of(v, x.general)
    &&& user_field_of(field(v, "author"@)) == Some(x.caller)
    &&& call_field_of(field(v, "call"@), x.call)
}

/// `v` has every field that it needs, each of the right kind.
pub open spec fn call_message_ok(v: JsonValue) -> bool {
    &&& general_ok(v)
    &&& user_field_of(field(v, "author"@)) is Some
    &&& call_field_ok(field(v, "call"@))
}

impl CallMessageData {
    /// Reads the value from a JSON object.
    pub fn from_json(v: &JsonValue) -> (r: Option<CallMessageData>)
        ensures
            match r {
                Some(x) => call_message_of(*v, x),
                None => !call_message_ok(*v),
            },
    {
        let general = match GeneralMessageData::from_json(v) {
            Some(x) => x,
            None => return None,
        };
        let caller = match get_user(v, "author") {
            Some(x) => x,
            None => return None,
        };
        let call = match get_call(v, "call") {
            Some(x) => x,
            None => return None,
        };
        Some(CallMessageData { general, caller, call })
    }
}

/// A message that records a user joining a guild.
#[derive(Debug)]
pub struct UserJoinData {
    pub general: GeneralMessageData,
    pub user: UserData,
    /// Absent when read from a reply's referenced message.
    pub member: Option<GuildMemberData>,
    /// Absent when the message came through the gateway.
    pub guild_id: Option<Snowflake>,
}

/// `x` is what the JSON object `v` describes.
pub open spec fn user_join_of(v: JsonValue, x: UserJoinData) -> bool {
    &&& general_of(v, x.general)
    &&& user_field_of(field(v, "author"@)) == Some(x.user)
    &&& opt_member_field_of(field(v, "member"@), x.member)
    &&& opt_snowflake_of(field(v, "guild_id"@)) == Some(x.guild_id)
}

/// `v` has every field that it needs, each of the right kind.
pub open spec fn user_join_ok(v: JsonValue) -> bool {
    &&& general_ok(v)
    &&& user_field_of(field(v, "author"@)) is Some
    &&& opt_member_field_ok(field(v, "member"@))
    &&& opt_snowflake_of(field(v, "guild_id"@)) is Some
}

impl UserJoinData {
    /// Reads the value from a JSON object.
    pub fn from_json(v: &JsonValue) -> (r: Option<UserJoinData>)
        ensures
            match r {
                Some(x) => user_join_of(*v, x),
                None => !user_join_ok(*v),
            },
    {
        let general = match GeneralMessageData::from_json(v) {
            Some(x) => x,
            None => return None,
        };
        let user = match get_user(v, "author") {
            Some(x) => x,
            None => return None,
        };
        let member = match get_opt_member(v, "member") {
            Some(x) => x,
            None => return None,
        };
        let guild_id = match get_opt_snowflake(v, "guild_id") {
            Some(x) => x,
            None => return None,
        };
        Some(UserJoinData { general, user, member, guild_id })
    }
}

/// A message that answers a slash command.
#[derive(Debug)]
pub struct ChatInputCommandData {
    pub general: GeneralMessageData,
    pub application_id: Snowflake,
    pub author: UserData,
    pub content: String,
    pub edited_timestamp: Option<Timestamp>,
    pub guild_id: Option<Snowflake>,
    pub interaction: Data,
    pub interaction_metadata: Metadata,
    pub member: Option<GuildMemberData>,
    pub mention_everyone: bool,
    pub mention_roles: Vec<String>,
    pub mentions: Vec<String>,
    pub nonce: String,
    pub pinned: bool,
    pub position: u64,
    pub tts: bool,
    pub kind: u64,
    pub webhook_id: Snowflake,
}

/// `x` is what the JSON object `v` describes.
pub open spec fn chat_input_of(v: JsonValue, x: ChatInputCommandData) -> bool {
    &&& general_of(v, x.general)
    &&& snowflake_of(field(v, "application_id"@)) == Some(x.application_id)
    &&& user_field_of(field(v, "author"@)) == Some(x.author)
    &&& str_of(field(v, "content"@)) == Some(x.content)
    &&& opt_timestamp_of(field(v, "edited_timestamp"@)) == Some(x.edited_timestamp)
    &&& opt_snowflake_of(field(v, "guild_id"@)) == Some(x.guild_id)
    &&& interaction_field_of(field(v, "interaction"@), x.interaction)
    &&& metadata_field_of(field(v, "interaction_metadata"@)) == Some(x.interaction_metadata)
    &&& opt_member_field_of(field(v, "member"@), x.member)
    &&& bool_of(field(v, "mention_everyone"@)) == Some(x.mention_everyone)
    &&& string_list_of(field(v, "mention_roles"@), x.mention_roles@)
    &&& string_list_of(field(v, "mentions"@), x.mentions@)
    &&& str_of(field(v, "nonce"@)) == Some(x.nonce)
    &&& bool_of(field(v, "pinned"@)) == Some(x.pinned)
    &&& u64_of(field(v, "position"@)) == Some(x.position)
    &&& bool_of(field(v, "tts"@)) == Some(x.tts)
    &&& u64_of(field(v, "type"@)) == Some(x.kind)
    &&& snowflake_of(field(v, "webhook_id"@)) == Some(x.webhook_id)
}

/// `v` has every field that it needs, each of the right kind.
pub open spec fn chat_input_ok(v: JsonValue) -> bool {
    &&& general_ok(v)
    &&& snowflake_of(field(v, "application_id"@)) is Some
    &&& user_field_of(field(v, "author"@)) is Some
    &&& str_of(field(v, "content"@)) is Some
    &&& opt_timestamp_of(field(v, "edited_timestamp"@)) is Some
    &&& opt_snowflake_of(field(v, "guild_id"@)) is Some
    &&& interaction_field_ok(field(v, "interaction"@))
    &&& metadata_field_of(field(v, "interaction_metadata"@)) is Some
    &&& opt_member_field_ok(field(v, "member"@))
    &&& bool_of(field(v, "mention_everyone"@)) is Some
    &&& string_list_ok(field(v, "mention_roles"@))
    &&& string_list_ok(field(v, "mentions"@))
    &&& str_of(field(v, "nonce"@)) is Some
    &&& bool_of(field(v, "pinned"@)) is Some
    &&& u64_of(field(v, "position"@)) is Some
    &&& bool_of(field(v, "tts"@)) is Some
    &&& u64_of(field(v, "type"@)) is Some
    &&& snowflake_of(field(v, "webhook_id"@)) is Some
}

impl ChatInputCommandData {
    /// Reads the value from a JSON object.
    pub fn from_json(v: &JsonValue) -> (r: Option<ChatInputCommandData>)
        ensures
            match r {
                Some(x) => chat_input_of(*v, x),
                None => !chat_input_ok(*v),
            },
    {
        let general = match GeneralMessageData::from_json(v) {
            Some(x) => x,
            None => return None,
        };
        let application_id = match get_snowflake(v, "application_id") {
            Some(x) => x,
            None => return None,
        };
        let author = match get_user(v, "author") {
            Some(x) => x,
            None => return None,
        };
        let content = match v.get_string("content") {
            Some(x) => x,
            None => return None,
        };
        let edited_timestamp = match get_opt_timestamp(v, "edited_timestamp") {
            Some(x) => x,
            None => return None,
        };
        let guild_id = match get_opt_snowflake(v, "guild_id") {
            Some(x) => x,
            None => return None,
        };
        let interaction = match get_interaction(v, "interaction") {
            Some(x) => x,
            None => return None,
        };
        let interaction_metadata = match get_metadata(v, "interaction_metadata") {
            Some(x) => x,
            None => return None,
        };
        let member = match get_opt_member(v, "member") {
            Some(x) => x,
            None => return None,
        };
        let mention_everyone = match v.get_bool("mention_everyone") {
            Some(x) => x,
            None => return None,
        };
        let mention_roles = match decode_strings(v, "mention_roles") {
            Some(x) => x,
            None => return None,
        };
        let mentions = match decode_strings(v, "mentions") {
            Some(x) => x,
            None => return None,
        };
        let nonce = match v.get_string("nonce") {
            Some(x) => x,
            None => return None,
        };
        let pinned = match v.get_bool("pinned") {
            Some(x) => x,
            None => return None,
        };
        let position = match v.get_u64("position") {
            Some(x) => x,
            None => return None,
        };
        let tts = match v.get_bool("tts") {
            Some(x) => x,
            None => return None,
        };
        let kind = match v.get_u64("type") {
            Some(x) => x,
            None => return None,
        };
        let webhook_id = match get_snowflake(v, "webhook_id") {
            Some(x) => x,
            None => return None,
        };
        Some(ChatInputCommandData { general, application_id, author, content, edited_timestamp, guild_id, interaction, interaction_metadata, member, mention_everyone, mention_roles, mentions, nonce, pinned, position, tts, kind, webhook_id })
    }
}

/// A JSON object describes at most one set of common message fields.
pub proof fn lemma_general_unique(v: JsonValue, a: GeneralMessageData, b: GeneralMessageData)
    requires
        general_of(v, a),
        general_of(v, b),
    ensures
        same_general(a, b),
{
    lemma_list_of_unique(field(v, "attachments"@), a.attachments@, b.attachments@, |x: JsonValue| attachment_of(x));
    lemma_list_of_unique(field(v, "embeds"@), a.embeds@, b.embeds@, |x: JsonValue| embed_of(x));
    lemma_list_of_unique(field(v, "components"@), a.components@, b.components@, |x: JsonValue| component_of(x));
}

/// Two values agree field by field, lists by their contents.
pub open spec fn same_default(a: DefaultMessageData, b: DefaultMessageData) -> bool {
    &&& same_general(a.general, b.general)
    &&& a.content == b.content
    &&& a.author == b.author
    &&& a.pinned == b.pinned
    &&& a.mention_everyone == b.mention_everyone
    &&& a.tts == b.tts
    &&& a.edited_timestamp == b.edited_timestamp
}

/// A JSON object describes at most one such value.
pub proof fn lemma_default_unique(v: JsonValue, a: DefaultMessageData, b: DefaultMessageData)
    requires
        default_of(v, a),
        default_of(v, b),
    ensures
        same_default(a, b),
{
    lemma_general_unique(v, a.general, b.general);
}

/// Two values agree field by field, lists by their contents.
pub open spec fn same_call_message(a: CallMessageData, b: CallMessageData) -> bool {
    &&& same_general(a.general, b.general)
    &&& a.caller == b.caller
    &&& same_call(a.call, b.call)
}

/// A JSON object describes at most one such value.
pub proof fn lemma_call_message_unique(v: JsonValue, a: CallMessageData, b: CallMessageData)
    requires
        call_message_of(v, a),
        call_message_of(v, b),
    ensures
        same_call_message(a, b),
{
    lemma_general_unique(v, a.general, b.general);
    lemma_call_field_unique(field(v, "call"@), a.call, b.call);
}

/// Two values agree field by field, lists by their contents.
pub open spec fn same_user_join(a: UserJoinData, b: UserJoinData) -> bool {
    &&& same_general(a.general, b.general)
    &&& a.user == b.user
    &&& same_opt_member(a.member, b.member)
    &&& a.guild_id == b.guild_id
}

/// A JSON object describes at most one such value.
pub proof fn lemma_user_join_unique(v: JsonValue, a: UserJoinData, b: UserJoinData)
    requires
        user_join_of(v, a),
        user_join_of(v, b),
    ensures
        same_user_join(a, b),
{
    lemma_general_unique(v, a.general, b.general);
    lemma_opt_member_field_unique(field(v, "member"@), a.member, b.member);
}

/// Two values agree field by field, lists by their contents.
pub open spec fn same_chat_input(a: ChatInputCommandData, b: ChatInputCommandData) -> bool {
    &&& same_general(a.general, b.general)
    &&& a.application_id == b.application_id
    &&& a.author == b.author
    &&& a.content == b.content
    &&& a.edited_timestamp == b.edited_timestamp
    &&& a.guild_id == b.guild_id
    &&& same_interaction(a.interaction, b.interaction)
    &&& a.interaction_metadata == b.interaction_metadata
    &&& same_opt_member(a.member, b.member)
    &&& a.mention_everyone == b.mention_everyone
    &&& a.mention_roles@ == b.mention_roles@
    &&& a.mentions@ == b.mentions@
    &&& a.nonce == b.nonce
    &&& a.pinned == b.pinned
    &&& a.position == b.position
    &&& a.tts == b.tts
    &&& a.kind == b.kind
    &&& a.webhook_id == b.webhook_id
}

/// A JSON object describes at most one such value.
pub proof fn lemma_chat_input_unique(v: JsonValue, a: ChatInputCommandData, b: ChatInputCommandData)
    requires
        chat_input_of(v, a),
        chat_input_of(v, b),
    ensures
        same_chat_input(a, b),
{
    lemma_general_unique(v, a.general, b.general);
    lemma_interaction_field_unique(field(v, "interaction"@), a.interaction, b.interaction);
    lemma_opt_member_field_unique(field(v, "member"@), a.member, b.member);
    lemma_string_list_unique(field(v, "mention_roles"@), a.mention_roles@, b.mention_roles@);
    lemma_string_list_unique(field(v, "mentions"@), a.mentions@, b.mentions@);
}

/// How deep a chain of replies is read: a reply nested deeper than this
/// keeps no referenced message.
pub const REPLY_DEPTH: u8 = 8;

/// A message that replies to another.
#[derive(Debug)]
pub struct ReplyMessageData {
    pub message: DefaultMessageData,
    pub referenced_message: Option<Box<Message>>,
}

/// A message, by its type. Types that are known but not modelled keep what
/// every message carries.
#[derive(Debug)]
pub enum Message {
    Default(DefaultMessageData),
    Call(CallMessageData),
    UserJoin(UserJoinData),
    Reply(ReplyMessageData),
    ChatInputCommand(ChatInputCommandData),
    Unknown(GeneralMessageData),
}

/// `m` is what the JSON object `v` says a message is, reading referenced
/// messages `depth` levels deep.
pub open spec fn message_of_depth(v: JsonValue, m: Message, depth: nat) -> bool
    decreases depth,
{
    match u64_of(field(v, "type"@)) {
        Some(t) => is_known_message_type(t) && if t == 0 {
            m matches Message::Default(d) && default_of(v, d)
        } else if t == 3 {
            m matches Message::Call(c) && call_message_of(v, c)
        } else if t == 7 {
            m matches Message::UserJoin(u) && user_join_of(v, u)
        } else if t == 19 {
            match m {
                Message::Reply(r) => default_of(v, r.message) && match field(v, "referenced_message"@) {
                    None => r.referenced_message is None,
                    Some(JsonValue::Null) => r.referenced_message is None,
                    Some(x) => if depth == 0 {
                        r.referenced_message is None
                    } else {
                        r.referenced_message matches Some(b) && message_of_depth(x, *b, (depth - 1) as nat)
                    },
                },
                _ => false,
            }
        } else if t == 20 {
            m matches Message::ChatInputCommand(c) && chat_input_of(v, c)
        } else {
            m matches Message::Unknown(g) && general_of(v, g)
        },
        None => false,
    }
}

/// `v` is a message of a known type with every field its type needs.
pub open spec fn message_ok_depth(v: JsonValue, depth: nat) -> bool
    decreases depth,
{
    match u64_of(field(v, "type"@)) {
        Some(t) => is_known_message_type(t) && if t == 0 {
            default_ok(v)
        } else if t == 3 {
            call_message_ok(v)
        } else if t == 7 {
            user_join_ok(v)
        } else if t == 19 {
            default_ok(v) && match field(v, "referenced_message"@) {
                None => true,
                Some(JsonValue::Null) => true,
                Some(x) => depth == 0 || message_ok_depth(x, (depth - 1) as nat),
            }
        } else if t == 20 {
            chat_input_ok(v)
        } else {
            general_ok(v)
        },
        None => false,
    }
}

pub open spec fn message_of(v: JsonValue, m: Message) -> bool {
    message_of_depth(v, m, REPLY_DEPTH as nat)
}

pub open spec fn message_ok(v: JsonValue) -> bool {
    message_ok_depth(v, REPLY_DEPTH as nat)
}

/// Two messages agree: the same type, field by field, lists by their contents.
pub open spec fn same_message(a: Message, b: Message) -> bool
    decreases a,
{
    match (a, b) {
        (Message::Default(x), Message::Default(y)) => same_default(x, y),
        (Message::Call(x), Message::Call(y)) => same_call_message(x, y),
        (Message::UserJoin(x), Message::UserJoin(y)) => same_user_join(x, y),
        (Message::Reply(x), Message::Reply(y)) => {
            &&& same_default(x.message, y.message)
            &&& (x.referenced_message is Some <==> y.referenced_message is Some)
            &&& match (x.referenced_message, y.referenced_message) {
                (Some(p), Some(q)) => same_message(*p, *q),
                _ => true,
            }
        },
        (Message::ChatInputCommand(x), Message::ChatInputCommand(y)) => same_chat_input(x, y),
        (Message::Unknown(x), Message::Unknown(y)) => same_general(x, y),
        _ => false,
    }
}

/// A JSON object describes at most one message.
pub proof fn lemma_message_of_depth_unique(v: JsonValue, a: Message, b: Message, depth: nat)
    requires
        message_of_depth(v, a, depth),
        message_of_depth(v, b, depth),
    ensures
        same_message(a, b),
    decreases depth,
{
    match (a, b) {
        (Message::Default(x), Message::Default(y)) => lemma_default_unique(v, x, y),
        (Message::Call(x), Message::Call(y)) => lemma_call_message_unique(v, x, y),
        (Message::UserJoin(x), Message::UserJoin(y)) => lemma_user_join_unique(v, x, y),
        (Message::Reply(x), Message::Reply(y)) => {
            lemma_default_unique(v, x.message, y.message);
            if let (Some(p), Some(q), Some(r)) = (x.referenced_message, y.referenced_message, field(v, "referenced_message"@)) {
                lemma_message_of_depth_unique(r, *p, *q, (depth - 1) as nat);
            }
        },
        (Message::ChatInputCommand(x), Message::ChatInputCommand(y)) => lemma_chat_input_unique(v, x, y),
        (Message::Unknown(x), Message::Unknown(y)) => lemma_general_unique(v, x, y),
        _ => {},
    }
}

/// Every message agrees with itself.
pub proof fn lemma_same_message_reflexive(m: Message)
    ensures
        same_message(m, m),
    decreases m,
{
    if let Message::Reply(r) = m {
        if let Some(p) = r.referenced_message {
            lemma_same_message_reflexive(*p);
        }
    }
}

pub proof fn lemma_message_of_unique(v: JsonValue, a: Message, b: Message)
    requires
        message_of(v, a),
        message_of(v, b),
    ensures
        same_message(a, b),
{
    lemma_message_of_depth_unique(v, a, b, REPLY_DEPTH as nat);
}

impl Message {
    /// Reads a message from a JSON object, by its `type` field, following
    /// referenced messages `depth` levels deep.
    pub fn from_json_depth(v: &JsonValue, depth: u8) -> (r: Option<Message>)
        ensures
            match r {
                Some(m) => message_of_depth(*v, m, depth as nat) && message_ok_depth(*v, depth as nat),
                None => !message_ok_depth(*v, depth as nat),
            },
        decreases depth,
    {
        let t = match v.get_u64("type") {
            Some(t) => t,
            None => return None,
        };
        if !(t <= 12 || (14 <= t && t <= 29) || t == 31 || t == 32 || (36 <= t && t <= 39) || t == 44) {
            return None;
        }
        if t == 0 {
            match DefaultMessageData::from_json(v) {
                Some(d) => Some(Message::Default(d)),
                None => None,
            }
        } else if t == 3 {
            match CallMessageData::from_json(v) {
                Some(c) => Some(Message::Call(c)),
                None => None,
            }
        } else if t == 7 {
            match UserJoinData::from_json(v) {
                Some(u) => Some(Message::UserJoin(u)),
                None => None,
            }
        } else if t == 19 {
            let message = match DefaultMessageData::from_json(v) {
                Some(d) => d,
                None => return None,
            };
            let referenced_message = match v.get("referenced_message") {
                None => None,
                Some(JsonValue::Null) => None,
                Some(x) => if depth == 0 {
                    None
                } else {
                    match Message::from_json_depth(x, depth - 1) {
                        Some(m) => Some(Box::new(m)),
                        None => return None,
                    }
                },
            };
            Some(Message::Reply(ReplyMessageData { message, referenced_message }))
        } else if t == 20 {
            match ChatInputCommandData::from_json(v) {
                Some(c) => Some(Message::ChatInputCommand(c)),
                None => None,
            }
        } else {
            match GeneralMessageData::from_json(v) {
                Some(g) => Some(Message::Unknown(g)),
                None => None,
            }
        }
    }

    /// Reads a message from a JSON object, by its `type` field.
    pub fn from_json(v: &JsonValue) -> (r: Option<Message>)
        ensures
            match r {
                Some(m) => message_of(*v, m) && message_ok(*v),
                None => !message_ok(*v),
            },
    {
        Message::from_json_depth(v, REPLY_DEPTH)
    }

    /// The message's identifier.
    pub fn message_id(&self) -> (r: &Snowflake)
        ensures
            r == match self {
                Message::Default(d) => &d.general.id,
                Message::Call(c) => &c.general.id,
                Message::UserJoin(u) => &u.general.id,
                Message::Reply(r) => &r.message.general.id,
                Message::ChatInputCommand(c) => &c.general.id,
                Message::Unknown(g) => &g.id,
            },
    {
        match self {
            Message::Default(d) => &d.general.id,
            Message::Call(c) => &c.general.id,
            Message::UserJoin(u) => &u.general.id,
            Message::Reply(r) => &r.message.general.id,
            Message::ChatInputCommand(c) => &c.general.id,
            Message::Unknown(g) => &g.id,
        }
    }
}

impl ID for Message {
    fn id(&self) -> &Snowflake {
        self.message_id()
    }
}


/// `out` is what each element of the array `v` describes, in order.
pub open spec fn message_list_of(v: JsonValue, out: Seq<Message>) -> bool {
    match v {
        JsonValue::Array(items) => out.len() == items@.len() && forall|i: int|
            0 <= i < out.len() ==> #[trigger] message_of(items@[i], out[i]),
        _ => false,
    }
}

/// `v` is an array whose every element is well-formed.
pub open spec fn message_list_ok(v: JsonValue) -> bool {
    match v {
        JsonValue::Array(items) => forall|i: int| 0 <= i < items@.len() ==> #[trigger] message_ok(items@[i]),
        _ => false,
    }
}

impl Message {
    /// Reads a JSON array of them, element by element.
    pub fn list_from_json(v: &JsonValue) -> (r: Option<Vec<Message>>)
        ensures
            match r {
                Some(out) => message_list_of(*v, out@),
                None => !message_list_ok(*v),
            },
    {
        let items = match v {
            JsonValue::Array(items) => items,
            _ => return None,
        };
        let mut out: Vec<Message> = Vec::new();
        let mut i: usize = 0;
        while i < items.len()
            invariant
                *v == JsonValue::Array(*items),
                i <= items@.len(),
                out@.len() == i,
                forall|j: int| 0 <= j < i ==> #[trigger] message_of((*items)@[j], out@[j]),
            decreases items@.len() - i,
        {
            match Message::from_json(&items[i]) {
                Some(x) => out.push(x),
                None => {
                    assert(!message_ok((*items)@[i as int]));
                    let ghost arr = JsonValue::Array(*items);
                    assert(arr->Array_0 == *items);
                    assert(message_list_ok(arr) == (forall|k: int|
                        0 <= k < (*items)@.len() ==> #[trigger] message_ok((*items)@[k])));
                    return None;
                },
            }
            i = i + 1;
        }
        Some(out)
    }
}

} // verus!
