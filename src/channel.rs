//! Channels, by their type.
use vstd::prelude::*;
use crate::json::{JsonValue, field, u64_of, str_of, opt_str_of, u32_of, bool_of, list_of, list_ok, lemma_list_of_unique};
use crate::model::{
    Snowflake, Timestamp, snowflake_of, opt_snowflake_of, opt_timestamp_of, get_snowflake, get_opt_snowflake,
    get_opt_timestamp,
};
use crate::permissions::{PermissionOverwrite, overwrite_of};
use crate::user::{UserData, user_data_of, first_user_of, get_first_user, decode_users};

verus! {

/// A tag that forum posts can carry.
#[derive(Debug)]
pub struct GuildForumTag {
    pub id: Snowflake,
    pub name: String,
    pub moderated: bool,
    pub emoji_id: Option<Snowflake>,
    pub emoji_name: Option<String>,
}

/// What the JSON object `v` describes.
pub open spec fn forum_tag_of(v: JsonValue) -> Option<GuildForumTag> {
    match (
        snowflake_of(field(v, "id"@)),
        str_of(field(v, "name"@)),
        bool_of(field(v, "moderated"@)),
        opt_snowflake_of(field(v, "emoji_id"@)),
        opt_str_of(field(v, "emoji_name"@)),
    ) {
        (Some(id), Some(name), Some(moderated), Some(emoji_id), Some(emoji_name)) => Some(GuildForumTag { id, name, moderated, emoji_id, emoji_name }),
        _ => None,
    }
}

impl GuildForumTag {
    /// Reads the value from a JSON object.
    pub fn from_json(v: &JsonValue) -> (r: Option<GuildForumTag>)
        ensures
            r == forum_tag_of(*v),
    {
        let id = match get_snowflake(v, "id") {
            Some(x) => x,
            None => return None,
        };
        let name = match v.get_string("name") {
            Some(x) => x,
            None => return None,
        };
        let moderated = match v.get_bool("moderated") {
            Some(x) => x,
            None => return None,
        };
        let emoji_id = match get_opt_snowflake(v, "emoji_id") {
            Some(x) => x,
            None => return None,
        };
        let emoji_name = match v.get_opt_string("emoji_name") {
            Some(x) => x,
            None => return None,
        };
        Some(GuildForumTag { id, name, moderated, emoji_id, emoji_name })
    }
}

/// Reads an array of `GuildForumTag`, element by element.
pub fn decode_forum_tags(v: &JsonValue, key: &str) -> (r: Option<Vec<GuildForumTag>>)
    ensures
        match r {
            Some(out) => list_of(field(*v, key@), out@, |x: JsonValue| forum_tag_of(x)),
            None => !list_ok(field(*v, key@), |x: JsonValue| forum_tag_of(x)),
        },
{
    let items = match v.get(key) {
        Some(JsonValue::Array(items)) => items,
        _ => return None,
    };
    let mut out: Vec<GuildForumTag> = Vec::new();
    let mut i: usize = 0;
    while i < items.len()
        invariant
            field(*v, key@) == Some(JsonValue::Array(*items)),
            i <= items@.len(),
            out@.len() == i,
            forall|j: int| 0 <= j < i ==> forum_tag_of(items@[j]) == Some(#[trigger] out@[j]),
        decreases items@.len() - i,
    {
        match GuildForumTag::from_json(&items[i]) {
            Some(x) => out.push(x),
            None => {
                assert((|x: JsonValue| forum_tag_of(x))(items@[i as int]) is None);
                return None;
            },
        }
        i = i + 1;
    }
    Some(out)
}

/// Reads an array of `PermissionOverwrite`, element by element.
pub fn decode_overwrites(v: &JsonValue, key: &str) -> (r: Option<Vec<PermissionOverwrite>>)
    ensures
        match r {
            Some(out) => list_of(field(*v, key@), out@, |x: JsonValue| overwrite_of(x)),
            None => !list_ok(field(*v, key@), |x: JsonValue| overwrite_of(x)),
        },
{
    let items = match v.get(key) {
        Some(JsonValue::Array(items)) => items,
        _ => return None,
    };
    let mut out: Vec<PermissionOverwrite> = Vec::new();
    let mut i: usize = 0;
    while i < items.len()
        invariant
            field(*v, key@) == Some(JsonValue::Array(*items)),
            i <= items@.len(),
            out@.len() == i,
            forall|j: int| 0 <= j < i ==> overwrite_of(items@[j]) == Some(#[trigger] out@[j]),
        decreases items@.len() - i,
    {
        match PermissionOverwrite::from_json(&items[i]) {
            Some(x) => out.push(x),
            None => {
                assert((|x: JsonValue| overwrite_of(x))(items@[i as int]) is None);
                return None;
            },
        }
        i = i + 1;
    }
    Some(out)
}

/// A text channel of a guild.
#[derive(Debug)]
pub struct GuildTextData {
    pub id: Snowflake,
    pub last_message_id: Option<Snowflake>,
    pub flags: u64,
    pub guild_id: Snowflake,
    pub last_pin_timestamp: Option<Timestamp>,
    pub name: String,
    pub category_id: Option<Snowflake>,
    pub rate_limit_per_user: u32,
    pub topic: Option<String>,
    pub position: u32,
    pub permission_overwrites: Vec<PermissionOverwrite>,
    pub nsfw: bool,
}

/// `x` is what the JSON object `v` describes.
pub open spec fn guild_text_of(v: JsonValue, x: GuildTextData) -> bool {
    &&& snowflake_of(field(v, "id"@)) == Some(x.id)
    &&& opt_snowflake_of(field(v, "last_message_id"@)) == Some(x.last_message_id)
    &&& u64_of(field(v, "flags"@)) == Some(x.flags)
    &&& snowflake_of(field(v, "guild_id"@)) == Some(x.guild_id)
    &&& opt_timestamp_of(field(v, "last_pin_timestamp"@)) == Some(x.last_pin_timestamp)
    &&& str_of(field(v, "name"@)) == Some(x.name)
    &&& opt_snowflake_of(field(v, "parent_id"@)) == Some(x.category_id)
    &&& u32_of(field(v, "rate_limit_per_user"@)) == Some(x.rate_limit_per_user)
    &&& opt_str_of(field(v, "topic"@)) == Some(x.topic)
    &&& u32_of(field(v, "position"@)) == Some(x.position)
    &&& list_of(field(v, "permission_overwrites"@), x.permission_overwrites@, |x: JsonValue| overwrite_of(x))
    &&& bool_of(field(v, "nsfw"@)) == Some(x.nsfw)
}

/// `v` has every field that it needs, each of the right kind.
pub open spec fn guild_text_ok(v: JsonValue) -> bool {
    &&& snowflake_of(field(v, "id"@)) is Some
    &&& opt_snowflake_of(field(v, "last_message_id"@)) is Some
    &&& u64_of(field(v, "flags"@)) is Some
    &&& snowflake_of(field(v, "guild_id"@)) is Some
    &&& opt_timestamp_of(field(v, "last_pin_timestamp"@)) is Some
    &&& str_of(field(v, "name"@)) is Some
    &&& opt_snowflake_of(field(v, "parent_id"@)) is Some
    &&& u32_of(field(v, "rate_limit_per_user"@)) is Some
    &&& opt_str_of(field(v, "topic"@)) is Some
    &&& u32_of(field(v, "position"@)) is Some
    &&& list_ok(field(v, "permission_overwrites"@), |x: JsonValue| overwrite_of(x))
    &&& bool_of(field(v, "nsfw"@)) is Some
}

impl GuildTextData {
    /// Reads the value from a JSON object.
    pub fn from_json(v: &JsonValue) -> (r: Option<GuildTextData>)
        ensures
            match r {
                Some(x) => guild_text_of(*v, x),
                None => !guild_text_ok(*v),
            },
    {
        let id = match get_snowflake(v, "id") {
            Some(x) => x,
            None => return None,
        };
        let last_message_id = match get_opt_snowflake(v, "last_message_id") {
            Some(x) => x,
            None => return None,
        };
        let flags = match v.get_u64("flags") {
            Some(x) => x,
            None => return None,
        };
        let guild_id = match get_snowflake(v, "guild_id") {
            Some(x) => x,
            None => return None,
        };
        let last_pin_timestamp = match get_opt_timestamp(v, "last_pin_timestamp") {
            Some(x) => x,
            None => return None,
        };
        let name = match v.get_string("name") {
            Some(x) => x,
            None => return None,
        };
        let category_id = match get_opt_snowflake(v, "parent_id") {
            Some(x) => x,
            None => return None,
        };
        let rate_limit_per_user = match v.get_u32("rate_limit_per_user") {
            Some(x) => x,
            None => return None,
        };
        let topic = match v.get_opt_string("topic") {
            Some(x) => x,
            None => return None,
        };
        let position = match v.get_u32("position") {
            Some(x) => x,
            None => return None,
        };
        let permission_overwrites = match decode_overwrites(v, "permission_overwrites") {
            Some(x) => x,
            None => return None,
        };
        let nsfw = match v.get_bool("nsfw") {
            Some(x) => x,
            None => return None,
        };
        Some(GuildTextData { id, last_message_id, flags, guild_id, last_pin_timestamp, name, category_id, rate_limit_per_user, topic, position, permission_overwrites, nsfw })
    }
}

/// A direct-message channel with one other user.
#[derive(Debug)]
pub struct DmData {
    pub id: Snowflake,
    pub last_message_id: Option<Snowflake>,
    pub flags: u64,
    pub last_pin_timestamp: Option<Timestamp>,
    /// The other user: the first of the recipients.
    pub recipient: UserData,
}

/// What the JSON object `v` describes.
pub open spec fn dm_of(v: JsonValue) -> Option<DmData> {
    match (
        snowflake_of(field(v, "id"@)),
        opt_snowflake_of(field(v, "last_message_id"@)),
        u64_of(field(v, "flags"@)),
        opt_timestamp_of(field(v, "last_pin_timestamp"@)),
        first_user_of(field(v, "recipients"@)),
    ) {
        (Some(id), Some(last_message_id), Some(flags), Some(last_pin_timestamp), Some(recipient)) => Some(DmData { id, last_message_id, flags, last_pin_timestamp, recipient }),
        _ => None,
    }
}

impl DmData {
    /// Reads the value from a JSON object.
    pub fn from_json(v: &JsonValue) -> (r: Option<DmData>)
        ensures
            r == dm_of(*v),
    {
        let id = match get_snowflake(v, "id") {
            Some(x) => x,
            None => return None,
        };
        let last_message_id = match get_opt_snowflake(v, "last_message_id") {
            Some(x) => x,
            None => return None,
        };
        let flags = match v.get_u64("flags") {
            Some(x) => x,
            None => return None,
        };
        let last_pin_timestamp = match get_opt_timestamp(v, "last_pin_timestamp") {
            Some(x) => x,
            None => return None,
        };
        let recipient = match get_first_user(v, "recipients") {
            Some(x) => x,
            None => return None,
        };
        Some(DmData { id, last_message_id, flags, last_pin_timestamp, recipient })
    }
}

/// A voice channel of a guild.
#[derive(Debug)]
pub struct GuildVoiceData {
    pub id: Snowflake,
    pub last_message_id: Option<Snowflake>,
    pub flags: u64,
    pub guild_id: Snowflake,
    pub name: String,
    pub last_pin_timestamp: Option<Timestamp>,
    pub category_id: Option<Snowflake>,
    pub rate_limit_per_user: u32,
    pub bitrate: u32,
    pub user_limit: u32,
    pub rtc_region: Option<String>,
    pub position: u32,
    pub permission_overwrites: Vec<PermissionOverwrite>,
    pub nsfw: bool,
}

/// `x` is what the JSON object `v` describes.
pub open spec fn guild_voice_of(v: JsonValue, x: GuildVoiceData) -> bool {
    &&& snowflake_of(field(v, "id"@)) == Some(x.id)
    &&& opt_snowflake_of(field(v, "last_message_id"@)) == Some(x.last_message_id)
    &&& u64_of(field(v, "flags"@)) == Some(x.flags)
    &&& snowflake_of(field(v, "guild_id"@)) == Some(x.guild_id)
    &&& str_of(field(v, "name"@)) == Some(x.name)
    &&& opt_timestamp_of(field(v, "last_pin_timestamp"@)) == Some(x.last_pin_timestamp)
    &&& opt_snowflake_of(field(v, "parent_id"@)) == Some(x.category_id)
    &&& u32_of(field(v, "rate_limit_per_user"@)) == Some(x.rate_limit_per_user)
    &&& u32_of(field(v, "bitrate"@)) == Some(x.bitrate)
    &&& u32_of(field(v, "user_limit"@)) == Some(x.user_limit)
    &&& opt_str_of(field(v, "rtc_region"@)) == Some(x.rtc_region)
    &&& u32_of(field(v, "position"@)) == Some(x.position)
    &&& list_of(field(v, "permission_overwrites"@), x.permission_overwrites@, |x: JsonValue| overwrite_of(x))
    &&& bool_of(field(v, "nsfw"@)) == Some(x.nsfw)
}

/// `v` has every field that it needs, each of the right kind.
pub open spec fn guild_voice_ok(v: JsonValue) -> bool {
    &&& snowflake_of(field(v, "id"@)) is Some
    &&& opt_snowflake_of(field(v, "last_message_id"@)) is Some
    &&& u64_of(field(v, "flags"@)) is Some
    &&& snowflake_of(field(v, "guild_id"@)) is Some
    &&& str_of(field(v, "name"@)) is Some
    &&& opt_timestamp_of(field(v, "last_pin_timestamp"@)) is Some
    &&& opt_snowflake_of(field(v, "parent_id"@)) is Some
    &&& u32_of(field(v, "rate_limit_per_user"@)) is Some
    &&& u32_of(field(v, "bitrate"@)) is Some
    &&& u32_of(field(v, "user_limit"@)) is Some
    &&& opt_str_of(field(v, "rtc_region"@)) is Some
    &&& u32_of(field(v, "position"@)) is Some
    &&& list_ok(field(v, "permission_overwrites"@), |x: JsonValue| overwrite_of(x))
    &&& bool_of(field(v, "nsfw"@)) is Some
}

impl GuildVoiceData {
    /// Reads the value from a JSON object.
    pub fn from_json(v: &JsonValue) -> (r: Option<GuildVoiceData>)
        ensures
            match r {
                Some(x) => guild_voice_of(*v, x),
                None => !guild_voice_ok(*v),
            },
    {
        let id = match get_snowflake(v, "id") {
            Some(x) => x,
            None => return None,
        };
        let last_message_id = match get_opt_snowflake(v, "last_message_id") {
            Some(x) => x,
            None => return None,
        };
        let flags = match v.get_u64("flags") {
            Some(x) => x,
            None => return None,
        };
        let guild_id = match get_snowflake(v, "guild_id") {
            Some(x) => x,
            None => return None,
        };
        let name = match v.get_string("name") {
            Some(x) => x,
            None => return None,
        };
        let last_pin_timestamp = match get_opt_timestamp(v, "last_pin_timestamp") {
            Some(x) => x,
            None => return None,
        };
        let category_id = match get_opt_snowflake(v, "parent_id") {
            Some(x) => x,
            None => return None,
        };
        let rate_limit_per_user = match v.get_u32("rate_limit_per_user") {
            Some(x) => x,
            None => return None,
        };
        let bitrate = match v.get_u32("bitrate") {
            Some(x) => x,
            None => return None,
        };
        let user_limit = match v.get_u32("user_limit") {
            Some(x) => x,
            None => return None,
        };
        let rtc_region = match v.get_opt_string("rtc_region") {
            Some(x) => x,
            None => return None,
        };
        let position = match v.get_u32("position") {
            Some(x) => x,
            None => return None,
        };
        let permission_overwrites = match decode_overwrites(v, "permission_overwrites") {
            Some(x) => x,
            None => return None,
        };
        let nsfw = match v.get_bool("nsfw") {
            Some(x) => x,
            None => return None,
        };
        Some(GuildVoiceData { id, last_message_id, flags, guild_id, name, last_pin_timestamp, category_id, rate_limit_per_user, bitrate, user_limit, rtc_region, position, permission_overwrites, nsfw })
    }
}

/// A direct-message channel with several users.
#[derive(Debug)]
pub struct GroupDmData {
    pub id: Snowflake,
    pub last_message_id: Option<Snowflake>,
    pub flags: u64,
    pub last_pin_timestamp: Option<Timestamp>,
    pub recipients: Vec<UserData>,
    pub name: Option<String>,
    pub icon: Option<String>,
    pub owner_id: Option<Snowflake>,
}

/// `x` is what the JSON object `v` describes.
pub open spec fn group_dm_of(v: JsonValue, x: GroupDmData) -> bool {
    &&& snowflake_of(field(v, "id"@)) == Some(x.id)
    &&& opt_snowflake_of(field(v, "last_message_id"@)) == Some(x.last_message_id)
    &&& u64_of(field(v, "flags"@)) == Some(x.flags)
    &&& opt_timestamp_of(field(v, "last_pin_timestamp"@)) == Some(x.last_pin_timestamp)
    &&& list_of(field(v, "recipients"@), x.recipients@, |x: JsonValue| user_data_of(x))
    &&& opt_str_of(field(v, "name"@)) == Some(x.name)
    &&& opt_str_of(field(v, "icon"@)) == Some(x.icon)
    &&& opt_snowflake_of(field(v, "owner_id"@)) == Some(x.owner_id)
}

/// `v` has every field that it needs, each of the right kind.
pub open spec fn group_dm_ok(v: JsonValue) -> bool {
    &&& snowflake_of(field(v, "id"@)) is Some
    &&& opt_snowflake_of(field(v, "last_message_id"@)) is Some
    &&& u64_of(field(v, "flags"@)) is Some
    &&& opt_timestamp_of(field(v, "last_pin_timestamp"@)) is Some
    &&& list_ok(field(v, "recipients"@), |x: JsonValue| user_data_of(x))
    &&& opt_str_of(field(v, "name"@)) is Some
    &&& opt_str_of(field(v, "icon"@)) is Some
    &&& opt_snowflake_of(field(v, "owner_id"@)) is Some
}

impl GroupDmData {
    /// Reads the value from a JSON object.
    pub fn from_json(v: &JsonValue) -> (r: Option<GroupDmData>)
        ensures
            match r {
                Some(x) => group_dm_of(*v, x),
                None => !group_dm_ok(*v),
            },
    {
        let id = match get_snowflake(v, "id") {
            Some(x) => x,
            None => return None,
        };
        let last_message_id = match get_opt_snowflake(v, "last_message_id") {
            Some(x) => x,
            None => return None,
        };
        let flags = match v.get_u64("flags") {
            Some(x) => x,
            None => return None,
        };
        let last_pin_timestamp = match get_opt_timestamp(v, "last_pin_timestamp") {
            Some(x) => x,
            None => return None,
        };
        let recipients = match decode_users(v, "recipients") {
            Some(x) => x,
            None => return None,
        };
        let name = match v.get_opt_string("name") {
            Some(x) => x,
            None => return None,
        };
        let icon = match v.get_opt_string("icon") {
            Some(x) => x,
            None => return None,
        };
        let owner_id = match get_opt_snowflake(v, "owner_id") {
            Some(x) => x,
            None => return None,
        };
        Some(GroupDmData { id, last_message_id, flags, last_pin_timestamp, recipients, name, icon, owner_id })
    }
}

/// A category that groups a guild's channels.
#[derive(Debug)]
pub struct GuildCategoryData {
    pub id: Snowflake,
    pub flags: u64,
    pub guild_id: Snowflake,
    pub name: String,
    pub position: u32,
    pub permission_overwrites: Vec<PermissionOverwrite>,
}

/// `x` is what the JSON object `v` describes.
pub open spec fn guild_category_of(v: JsonValue, x: GuildCategoryData) -> bool {
    &&& snowflake_of(field(v, "id"@)) == Some(x.id)
    &&& u64_of(field(v, "flags"@)) == Some(x.flags)
    &&& snowflake_of(field(v, "guild_id"@)) == Some(x.guild_id)
    &&& str_of(field(v, "name"@)) == Some(x.name)
    &&& u32_of(field(v, "position"@)) == Some(x.position)
    &&& list_of(field(v, "permission_overwrites"@), x.permission_overwrites@, |x: JsonValue| overwrite_of(x))
}

/// `v` has every field that it needs, each of the right kind.
pub open spec fn guild_category_ok(v: JsonValue) -> bool {
    &&& snowflake_of(field(v, "id"@)) is Some
    &&& u64_of(field(v, "flags"@)) is Some
    &&& snowflake_of(field(v, "guild_id"@)) is Some
    &&& str_of(field(v, "name"@)) is Some
    &&& u32_of(field(v, "position"@)) is Some
    &&& list_ok(field(v, "permission_overwrites"@), |x: JsonValue| overwrite_of(x))
}

impl GuildCategoryData {
    /// Reads the value from a JSON object.
    pub fn from_json(v: &JsonValue) -> (r: Option<GuildCategoryData>)
        ensures
            match r {
                Some(x) => guild_category_of(*v, x),
                None => !guild_category_ok(*v),
            },
    {
        let id = match get_snowflake(v, "id") {
            Some(x) => x,
            None => return None,
        };
        let flags = match v.get_u64("flags") {
            Some(x) => x,
            None => return None,
        };
        let guild_id = match get_snowflake(v, "guild_id") {
            Some(x) => x,
            None => return None,
        };
        let name = match v.get_string("name") {
            Some(x) => x,
            None => return None,
        };
        let position = match v.get_u32("position") {
            Some(x) => x,
            None => return None,
        };
        let permission_overwrites = match decode_overwrites(v, "permission_overwrites") {
            Some(x) => x,
            None => return None,
        };
        Some(GuildCategoryData { id, flags, guild_id, name, position, permission_overwrites })
    }
}

/// An announcement channel of a guild.
#[derive(Debug)]
pub struct GuildAnnouncementData {
    pub id: Snowflake,
    pub last_message_id: Snowflake,
    pub flags: u64,
    pub last_pin_timestamp: Option<Timestamp>,
    pub guild_id: Snowflake,
    pub name: String,
    pub category_id: Option<Snowflake>,
    pub rate_limit_per_user: u32,
    pub topic: Option<String>,
    pub position: u32,
    pub permission_overwrites: Vec<PermissionOverwrite>,
    pub nsfw: bool,
    pub theme_color: Option<String>,
}

/// `x` is what the JSON object `v` describes.
pub open spec fn guild_announcement_of(v: JsonValue, x: GuildAnnouncementData) -> bool {
    &&& snowflake_of(field(v, "id"@)) == Some(x.id)
    &&& snowflake_of(field(v, "last_message_id"@)) == Some(x.last_message_id)
    &&& u64_of(field(v, "flags"@)) == Some(x.flags)
    &&& opt_timestamp_of(field(v, "last_pin_timestamp"@)) == Some(x.last_pin_timestamp)
    &&& snowflake_of(field(v, "guild_id"@)) == Some(x.guild_id)
    &&& str_of(field(v, "name"@)) == Some(x.name)
    &&& opt_snowflake_of(field(v, "parent_id"@)) == Some(x.category_id)
    &&& u32_of(field(v, "rate_limit_per_user"@)) == Some(x.rate_limit_per_user)
    &&& opt_str_of(field(v, "topic"@)) == Some(x.topic)
    &&& u32_of(field(v, "position"@)) == Some(x.position)
    &&& list_of(field(v, "permission_overwrites"@), x.permission_overwrites@, |x: JsonValue| overwrite_of(x))
    &&& bool_of(field(v, "nsfw"@)) == Some(x.nsfw)
    &&& opt_str_of(field(v, "theme_color"@)) == Some(x.theme_color)
}

/// `v` has every field that it needs, each of the right kind.
pub open spec fn guild_announcement_ok(v: JsonValue) -> bool {
    &&& snowflake_of(field(v, "id"@)) is Some
    &&& snowflake_of(field(v, "last_message_id"@)) is Some
    &&& u64_of(field(v, "flags"@)) is Some
    &&& opt_timestamp_of(field(v, "last_pin_timestamp"@)) is Some
    &&& snowflake_of(field(v, "guild_id"@)) is Some
    &&& str_of(field(v, "name"@)) is Some
    &&& opt_snowflake_of(field(v, "parent_id"@)) is Some
    &&& u32_of(field(v, "rate_limit_per_user"@)) is Some
    &&& opt_str_of(field(v, "topic"@)) is Some
    &&& u32_of(field(v, "position"@)) is Some
    &&& list_ok(field(v, "permission_overwrites"@), |x: JsonValue| overwrite_of(x))
    &&& bool_of(field(v, "nsfw"@)) is Some
    &&& opt_str_of(field(v, "theme_color"@)) is Some
}

impl GuildAnnouncementData {
    /// Reads the value from a JSON object.
    pub fn from_json(v: &JsonValue) -> (r: Option<GuildAnnouncementData>)
        ensures
            match r {
                Some(x) => guild_announcement_of(*v, x),
                None => !guild_announcement_ok(*v),
            },
    {
        let id = match get_snowflake(v, "id") {
            Some(x) => x,
            None => return None,
        };
        let last_message_id = match get_snowflake(v, "last_message_id") {
            Some(x) => x,
            None => return None,
        };
        let flags = match v.get_u64("flags") {
            Some(x) => x,
            None => return None,
        };
        let last_pin_timestamp = match get_opt_timestamp(v, "last_pin_timestamp") {
            Some(x) => x,
            None => return None,
        };
        let guild_id = match get_snowflake(v, "guild_id") {
            Some(x) => x,
            None => return None,
        };
        let name = match v.get_string("name") {
            Some(x) => x,
            None => return None,
        };
        let category_id = match get_opt_snowflake(v, "parent_id") {
            Some(x) => x,
            None => return None,
        };
        let rate_limit_per_user = match v.get_u32("rate_limit_per_user") {
            Some(x) => x,
            None => return None,
        };
        let topic = match v.get_opt_string("topic") {
            Some(x) => x,
            None => return None,
        };
        let position = match v.get_u32("position") {
            Some(x) => x,
            None => return None,
        };
        let permission_overwrites = match decode_overwrites(v, "permission_overwrites") {
            Some(x) => x,
            None => return None,
        };
        let nsfw = match v.get_bool("nsfw") {
            Some(x) => x,
            None => return None,
        };
        let theme_color = match v.get_opt_string("theme_color") {
            Some(x) => x,
            None => return None,
        };
        Some(GuildAnnouncementData { id, last_message_id, flags, last_pin_timestamp, guild_id, name, category_id, rate_limit_per_user, topic, position, permission_overwrites, nsfw, theme_color })
    }
}

/// A forum channel of a guild.
#[derive(Debug)]
pub struct GuildForumData {
    pub id: Snowflake,
    pub last_message_id: Option<Snowflake>,
    pub flags: u64,
    pub guild_id: Snowflake,
    pub name: String,
    pub category_id: Snowflake,
    pub rate_limit_per_user: u32,
    pub topic: Option<String>,
    pub position: u32,
    pub permission_overwrites: Vec<PermissionOverwrite>,
    pub nsfw: bool,
    pub available_tags: Vec<GuildForumTag>,
}

/// `x` is what the JSON object `v` describes.
pub open spec fn guild_forum_of(v: JsonValue, x: GuildForumData) -> bool {
    &&& snowflake_of(field(v, "id"@)) == Some(x.id)
    &&& opt_snowflake_of(field(v, "last_message_id"@)) == Some(x.last_message_id)
    &&& u64_of(field(v, "flags"@)) == Some(x.flags)
    &&& snowflake_of(field(v, "guild_id"@)) == Some(x.guild_id)
    &&& str_of(field(v, "name"@)) == Some(x.name)
    &&& snowflake_of(field(v, "parent_id"@)) == Some(x.category_id)
    &&& u32_of(field(v, "rate_limit_per_user"@)) == Some(x.rate_limit_per_user)
    &&& opt_str_of(field(v, "topic"@)) == Some(x.topic)
    &&& u32_of(field(v, "position"@)) == Some(x.position)
    &&& list_of(field(v, "permission_overwrites"@), x.permission_overwrites@, |x: JsonValue| overwrite_of(x))
    &&& bool_of(field(v, "nsfw"@)) == Some(x.nsfw)
    &&& list_of(field(v, "available_tags"@), x.available_tags@, |x: JsonValue| forum_tag_of(x))
}

/// `v` has every field that it needs, each of the right kind.
pub open spec fn guild_forum_ok(v: JsonValue) -> bool {
    &&& snowflake_of(field(v, "id"@)) is Some
    &&& opt_snowflake_of(field(v, "last_message_id"@)) is Some
    &&& u64_of(field(v, "flags"@)) is Some
    &&& snowflake_of(field(v, "guild_id"@)) is Some
    &&& str_of(field(v, "name"@)) is Some
    &&& snowflake_of(field(v, "parent_id"@)) is Some
    &&& u32_of(field(v, "rate_limit_per_user"@)) is Some
    &&& opt_str_of(field(v, "topic"@)) is Some
    &&& u32_of(field(v, "position"@)) is Some
    &&& list_ok(field(v, "permission_overwrites"@), |x: JsonValue| overwrite_of(x))
    &&& bool_of(field(v, "nsfw"@)) is Some
    &&& list_ok(field(v, "available_tags"@), |x: JsonValue| forum_tag_of(x))
}

impl GuildForumData {
    /// Reads the value from a JSON object.
    pub fn from_json(v: &JsonValue) -> (r: Option<GuildForumData>)
        ensures
            match r {
                Some(x) => guild_forum_of(*v, x),
                None => !guild_forum_ok(*v),
            },
    {
        let id = match get_snowflake(v, "id") {
            Some(x) => x,
            None => return None,
        };
        let last_message_id = match get_opt_snowflake(v, "last_message_id") {
            Some(x) => x,
            None => return None,
        };
        let flags = match v.get_u64("flags") {
            Some(x) => x,
            None => return None,
        };
        let guild_id = match get_snowflake(v, "guild_id") {
            Some(x) => x,
            None => return None,
        };
        let name = match v.get_string("name") {
            Some(x) => x,
            None => return None,
        };
        let category_id = match get_snowflake(v, "parent_id") {
            Some(x) => x,
            None => return None,
        };
        let rate_limit_per_user = match v.get_u32("rate_limit_per_user") {
            Some(x) => x,
            None => return None,
        };
        let topic = match v.get_opt_string("topic") {
            Some(x) => x,
            None => return None,
        };
        let position = match v.get_u32("position") {
            Some(x) => x,
            None => return None,
        };
        let permission_overwrites = match decode_overwrites(v, "permission_overwrites") {
            Some(x) => x,
            None => return None,
        };
        let nsfw = match v.get_bool("nsfw") {
            Some(x) => x,
            None => return None,
        };
        let available_tags = match decode_forum_tags(v, "available_tags") {
            Some(x) => x,
            None => return None,
        };
        Some(GuildForumData { id, last_message_id, flags, guild_id, name, category_id, rate_limit_per_user, topic, position, permission_overwrites, nsfw, available_tags })
    }
}

/// The types of channel, by the number the platform uses.
#[derive(Debug, Clone, Copy, PartialEq, Eq, Structural)]
pub enum ChannelType {
    GuildText,
    Dm,
    GuildVoice,
    GroupDm,
    GuildCategory,
    GuildAnnouncement,
    AnnouncementThread,
    PublicThread,
    PrivateThread,
    GuildStageVoice,
    GuildDirectory,
    GuildForum,
    GuildMedia,
}

/// The channel type a number stands for.
pub open spec fn channel_type_of(n: u64) -> Option<ChannelType> {
    if n == 0 {
        Some(ChannelType::GuildText)
    } else if n == 1 {
        Some(ChannelType::Dm)
    } else if n == 2 {
        Some(ChannelType::GuildVoice)
    } else if n == 3 {
        Some(ChannelType::GroupDm)
    } else if n == 4 {
        Some(ChannelType::GuildCategory)
    } else if n == 5 {
        Some(ChannelType::GuildAnnouncement)
    } else if n == 10 {
        Some(ChannelType::AnnouncementThread)
    } else if n == 11 {
        Some(ChannelType::PublicThread)
    } else if n == 12 {
        Some(ChannelType::PrivateThread)
    } else if n == 13 {
        Some(ChannelType::GuildStageVoice)
    } else if n == 14 {
        Some(ChannelType::GuildDirectory)
    } else if n == 15 {
        Some(ChannelType::GuildForum)
    } else if n == 16 {
        Some(ChannelType::GuildMedia)
    } else {
        None
    }
}

impl ChannelType {
    pub fn from_u64(n: u64) -> (r: Option<ChannelType>)
        ensures
            r == channel_type_of(n),
    {
        if n == 0 {
            Some(ChannelType::GuildText)
        } else if n == 1 {
            Some(ChannelType::Dm)
        } else if n == 2 {
            Some(ChannelType::GuildVoice)
        } else if n == 3 {
            Some(ChannelType::GroupDm)
        } else if n == 4 {
            Some(ChannelType::GuildCategory)
        } else if n == 5 {
            Some(ChannelType::GuildAnnouncement)
        } else if n == 10 {
            Some(ChannelType::AnnouncementThread)
        } else if n == 11 {
            Some(ChannelType::PublicThread)
        } else if n == 12 {
            Some(ChannelType::PrivateThread)
        } else if n == 13 {
            Some(ChannelType::GuildStageVoice)
        } else if n == 14 {
            Some(ChannelType::GuildDirectory)
        } else if n == 15 {
            Some(ChannelType::GuildForum)
        } else if n == 16 {
            Some(ChannelType::GuildMedia)
        } else {
            None
        }
    }
}

/// A channel, by its type. Types without modelled data carry none.
#[derive(Debug)]
pub enum Channel {
    GuildText(GuildTextData),
    Dm(DmData),
    GuildVoice(GuildVoiceData),
    GroupDm(GroupDmData),
    GuildCategory(GuildCategoryData),
    GuildAnnouncement(GuildAnnouncementData),
    AnnouncementThread,
    PublicThread,
    PrivateThread,
    GuildStageVoice,
    GuildDirectory,
    GuildForum(GuildForumData),
    GuildMedia,
}

/// `c` is the channel that the JSON object `v` describes, by its `type`.
pub open spec fn channel_of(v: JsonValue, c: Channel) -> bool {
    match u64_of(field(v, "type"@)) {
        Some(n) => match channel_type_of(n) {
            Some(t) => match t {
                ChannelType::GuildText => c matches Channel::GuildText(d) && guild_text_of(v, d),
                ChannelType::Dm => dm_of(v) matches Some(d) && c == Channel::Dm(d),
                ChannelType::GuildVoice => c matches Channel::GuildVoice(d) && guild_voice_of(v, d),
                ChannelType::GroupDm => c matches Channel::GroupDm(d) && group_dm_of(v, d),
                ChannelType::GuildCategory => c matches Channel::GuildCategory(d) && guild_category_of(v, d),
                ChannelType::GuildAnnouncement => c matches Channel::GuildAnnouncement(d) && guild_announcement_of(v, d),
                ChannelType::AnnouncementThread => c == Channel::AnnouncementThread,
                ChannelType::PublicThread => c == Channel::PublicThread,
                ChannelType::PrivateThread => c == Channel::PrivateThread,
                ChannelType::GuildStageVoice => c == Channel::GuildStageVoice,
                ChannelType::GuildDirectory => c == Channel::GuildDirectory,
                ChannelType::GuildForum => c matches Channel::GuildForum(d) && guild_forum_of(v, d),
                ChannelType::GuildMedia => c == Channel::GuildMedia,
            },
            None => false,
        },
        None => false,
    }
}

/// `v` is a channel of a known type with every field its type needs.
pub open spec fn channel_ok(v: JsonValue) -> bool {
    match u64_of(field(v, "type"@)) {
        Some(n) => match channel_type_of(n) {
            Some(t) => match t {
                ChannelType::GuildText => guild_text_ok(v),
                ChannelType::Dm => dm_of(v) is Some,
                ChannelType::GuildVoice => guild_voice_ok(v),
                ChannelType::GroupDm => group_dm_ok(v),
                ChannelType::GuildCategory => guild_category_ok(v),
                ChannelType::GuildAnnouncement => guild_announcement_ok(v),
                ChannelType::AnnouncementThread => true,
                ChannelType::PublicThread => true,
                ChannelType::PrivateThread => true,
                ChannelType::GuildStageVoice => true,
                ChannelType::GuildDirectory => true,
                ChannelType::GuildForum => guild_forum_ok(v),
                ChannelType::GuildMedia => true,
            },
            None => false,
        },
        None => false,
    }
}

impl Channel {
    /// The channel's identifier; types without modelled data have none here.
    pub fn channel_id(&self) -> (r: Option<&Snowflake>)
        ensures
            r == match self {
                Channel::GuildText(d) => Some(&d.id),
                Channel::Dm(d) => Some(&d.id),
                Channel::GuildVoice(d) => Some(&d.id),
                Channel::GroupDm(d) => Some(&d.id),
                Channel::GuildCategory(d) => Some(&d.id),
                Channel::GuildAnnouncement(d) => Some(&d.id),
                Channel::GuildForum(d) => Some(&d.id),
                _ => None,
            },
    {
        match self {
            Channel::GuildText(d) => Some(&d.id),
            Channel::Dm(d) => Some(&d.id),
            Channel::GuildVoice(d) => Some(&d.id),
            Channel::GroupDm(d) => Some(&d.id),
            Channel::GuildCategory(d) => Some(&d.id),
            Channel::GuildAnnouncement(d) => Some(&d.id),
            Channel::GuildForum(d) => Some(&d.id),
            _ => None,
        }
    }

    /// Reads a channel from a JSON object, by its `type` field.
    pub fn from_json(v: &JsonValue) -> (r: Option<Channel>)
        ensures
            match r {
                Some(c) => channel_of(*v, c),
                None => !channel_ok(*v),
            },
    {
        let t = match v.get_u64("type") {
            Some(n) => match ChannelType::from_u64(n) {
                Some(t) => t,
                None => return None,
            },
            None => return None,
        };
        match t {
            ChannelType::GuildText => match GuildTextData::from_json(v) {
                Some(d) => Some(Channel::GuildText(d)),
                None => None,
            },
            ChannelType::Dm => match DmData::from_json(v) {
                Some(d) => Some(Channel::Dm(d)),
                None => None,
            },
            ChannelType::GuildVoice => match GuildVoiceData::from_json(v) {
                Some(d) => Some(Channel::GuildVoice(d)),
                None => None,
            },
            ChannelType::GroupDm => match GroupDmData::from_json(v) {
                Some(d) => Some(Channel::GroupDm(d)),
                None => None,
            },
            ChannelType::GuildCategory => match GuildCategoryData::from_json(v) {
                Some(d) => Some(Channel::GuildCategory(d)),
                None => None,
            },
            ChannelType::GuildAnnouncement => match GuildAnnouncementData::from_json(v) {
                Some(d) => Some(Channel::GuildAnnouncement(d)),
                None => None,
            },
            ChannelType::AnnouncementThread => Some(Channel::AnnouncementThread),
            ChannelType::PublicThread => Some(Channel::PublicThread),
            ChannelType::PrivateThread => Some(Channel::PrivateThread),
            ChannelType::GuildStageVoice => Some(Channel::GuildStageVoice),
            ChannelType::GuildDirectory => Some(Channel::GuildDirectory),
            ChannelType::GuildForum => match GuildForumData::from_json(v) {
                Some(d) => Some(Channel::GuildForum(d)),
                None => None,
            },
            ChannelType::GuildMedia => Some(Channel::GuildMedia),
        }
    }
}

/// Two values agree field by field, lists by their contents.
pub open spec fn same_guild_text(a: GuildTextData, b: GuildTextData) -> bool {
    &&& a.id == b.id
    &&& a.last_message_id == b.last_message_id
    &&& a.flags == b.flags
    &&& a.guild_id == b.guild_id
    &&& a.last_pin_timestamp == b.last_pin_timestamp
    &&& a.name == b.name
    &&& a.category_id == b.category_id
    &&& a.rate_limit_per_user == b.rate_limit_per_user
    &&& a.topic == b.topic
    &&& a.position == b.position
    &&& a.permission_overwrites@ == b.permission_overwrites@
    &&& a.nsfw == b.nsfw
}

/// A JSON object describes at most one such value.
pub proof fn lemma_guild_text_unique(v: JsonValue, a: GuildTextData, b: GuildTextData)
    requires
        guild_text_of(v, a),
        guild_text_of(v, b),
    ensures
        same_guild_text(a, b),
{
    lemma_list_of_unique(field(v, "permission_overwrites"@), a.permission_overwrites@, b.permission_overwrites@, |x: JsonValue| overwrite_of(x));
}

/// Two values agree field by field, lists by their contents.
pub open spec fn same_guild_voice(a: GuildVoiceData, b: GuildVoiceData) -> bool {
    &&& a.id == b.id
    &&& a.last_message_id == b.last_message_id
    &&& a.flags == b.flags
    &&& a.guild_id == b.guild_id
    &&& a.name == b.name
    &&& a.last_pin_timestamp == b.last_pin_timestamp
    &&& a.category_id == b.category_id
    &&& a.rate_limit_per_user == b.rate_limit_per_user
    &&& a.bitrate == b.bitrate
    &&& a.user_limit == b.user_limit
    &&& a.rtc_region == b.rtc_region
    &&& a.position == b.position
    &&& a.permission_overwrites@ == b.permission_overwrites@
    &&& a.nsfw == b.nsfw
}

/// A JSON object describes at most one such value.
pub proof fn lemma_guild_voice_unique(v: JsonValue, a: GuildVoiceData, b: GuildVoiceData)
    requires
        guild_voice_of(v, a),
        guild_voice_of(v, b),
    ensures
        same_guild_voice(a, b),
{
    lemma_list_of_unique(field(v, "permission_overwrites"@), a.permission_overwrites@, b.permission_overwrites@, |x: JsonValue| overwrite_of(x));
}

/// Two values agree field by field, lists by their contents.
pub open spec fn same_group_dm(a: GroupDmData, b: GroupDmData) -> bool {
    &&& a.id == b.id
    &&& a.last_message_id == b.last_message_id
    &&& a.flags == b.flags
    &&& a.last_pin_timestamp == b.last_pin_timestamp
    &&& a.recipients@ == b.recipients@
    &&& a.name == b.name
    &&& a.icon == b.icon
    &&& a.owner_id == b.owner_id
}

/// A JSON object describes at most one such value.
pub proof fn lemma_group_dm_unique(v: JsonValue, a: GroupDmData, b: GroupDmData)
    requires
        group_dm_of(v, a),
        group_dm_of(v, b),
    ensures
        same_group_dm(a, b),
{
    lemma_list_of_unique(field(v, "recipients"@), a.recipients@, b.recipients@, |x: JsonValue| user_data_of(x));
}

/// Two values agree field by field, lists by their contents.
pub open spec fn same_guild_category(a: GuildCategoryData, b: GuildCategoryData) -> bool {
    &&& a.id == b.id
    &&& a.flags == b.flags
    &&& a.guild_id == b.guild_id
    &&& a.name == b.name
    &&& a.position == b.position
    &&& a.permission_overwrites@ == b.permission_overwrites@
}

/// A JSON object describes at most one such value.
pub proof fn lemma_guild_category_unique(v: JsonValue, a: GuildCategoryData, b: GuildCategoryData)
    requires
        guild_category_of(v, a),
        guild_category_of(v, b),
    ensures
        same_guild_category(a, b),
{
    lemma_list_of_unique(field(v, "permission_overwrites"@), a.permission_overwrites@, b.permission_overwrites@, |x: JsonValue| overwrite_of(x));
}

/// Two values agree field by field, lists by their contents.
pub open spec fn same_guild_announcement(a: GuildAnnouncementData, b: GuildAnnouncementData) -> bool {
    &&& a.id == b.id
    &&& a.last_message_id == b.last_message_id
    &&& a.flags == b.flags
    &&& a.last_pin_timestamp == b.last_pin_timestamp
    &&& a.guild_id == b.guild_id
    &&& a.name == b.name
    &&& a.category_id == b.category_id
    &&& a.rate_limit_per_user == b.rate_limit_per_user
    &&& a.topic == b.topic
    &&& a.position == b.position
    &&& a.permission_overwrites@ == b.permission_overwrites@
    &&& a.nsfw == b.nsfw
    &&& a.theme_color == b.theme_color
}

/// A JSON object describes at most one such value.
pub proof fn lemma_guild_announcement_unique(v: JsonValue, a: GuildAnnouncementData, b: GuildAnnouncementData)
    requires
        guild_announcement_of(v, a),
        guild_announcement_of(v, b),
    ensures
        same_guild_announcement(a, b),
{
    lemma_list_of_unique(field(v, "permission_overwrites"@), a.permission_overwrites@, b.permission_overwrites@, |x: JsonValue| overwrite_of(x));
}

/// Two values agree field by field, lists by their contents.
pub open spec fn same_guild_forum(a: GuildForumData, b: GuildForumData) -> bool {
    &&& a.id == b.id
    &&& a.last_message_id == b.last_message_id
    &&& a.flags == b.flags
    &&& a.guild_id == b.guild_id
    &&& a.name == b.name
    &&& a.category_id == b.category_id
    &&& a.rate_limit_per_user == b.rate_limit_per_user
    &&& a.topic == b.topic
    &&& a.position == b.position
    &&& a.permission_overwrites@ == b.permission_overwrites@
    &&& a.nsfw == b.nsfw
    &&& a.available_tags@ == b.available_tags@
}

/// A JSON object describes at most one such value.
pub proof fn lemma_guild_forum_unique(v: JsonValue, a: GuildForumData, b: GuildForumData)
    requires
        guild_forum_of(v, a),
        guild_forum_of(v, b),
    ensures
        same_guild_forum(a, b),
{
    lemma_list_of_unique(field(v, "permission_overwrites"@), a.permission_overwrites@, b.permission_overwrites@, |x: JsonValue| overwrite_of(x));
    lemma_list_of_unique(field(v, "available_tags"@), a.available_tags@, b.available_tags@, |x: JsonValue| forum_tag_of(x));
}

/// Two channels agree: the same type, field by field, lists by their contents.
pub open spec fn same_channel(a: Channel, b: Channel) -> bool {
    match (a, b) {
        (Channel::GuildText(x), Channel::GuildText(y)) => same_guild_text(x, y),
        (Channel::GuildVoice(x), Channel::GuildVoice(y)) => same_guild_voice(x, y),
        (Channel::GroupDm(x), Channel::GroupDm(y)) => same_group_dm(x, y),
        (Channel::GuildCategory(x), Channel::GuildCategory(y)) => same_guild_category(x, y),
        (Channel::GuildAnnouncement(x), Channel::GuildAnnouncement(y)) => same_guild_announcement(x, y),
        (Channel::GuildForum(x), Channel::GuildForum(y)) => same_guild_forum(x, y),
        _ => a == b,
    }
}

/// A JSON object describes at most one channel.
pub proof fn lemma_channel_unique(v: JsonValue, a: Channel, b: Channel)
    requires
        channel_of(v, a),
        channel_of(v, b),
    ensures
        same_channel(a, b),
{
    match (a, b) {
        (Channel::GuildText(x), Channel::GuildText(y)) => lemma_guild_text_unique(v, x, y),
        (Channel::GuildVoice(x), Channel::GuildVoice(y)) => lemma_guild_voice_unique(v, x, y),
        (Channel::GroupDm(x), Channel::GroupDm(y)) => lemma_group_dm_unique(v, x, y),
        (Channel::GuildCategory(x), Channel::GuildCategory(y)) => lemma_guild_category_unique(v, x, y),
        (Channel::GuildAnnouncement(x), Channel::GuildAnnouncement(y)) => lemma_guild_announcement_unique(v, x, y),
        (Channel::GuildForum(x), Channel::GuildForum(y)) => lemma_guild_forum_unique(v, x, y),
        _ => {},
    }
}


/// `out` is what each element of the array `v` describes, in order.
pub open spec fn channel_list_of(v: JsonValue, out: Seq<Channel>) -> bool {
    match v {
        JsonValue::Array(items) => out.len() == items@.len() && forall|i: int|
            0 <= i < out.len() ==> #[trigger] channel_of(items@[i], out[i]),
        _ => false,
    }
}

/// `v` is an array whose every element is well-formed.
pub open spec fn channel_list_ok(v: JsonValue) -> bool {
    match v {
        JsonValue::Array(items) => forall|i: int| 0 <= i < items@.len() ==> #[trigger] channel_ok(items@[i]),
        _ => false,
    }
}

impl Channel {
    /// Reads a JSON array of them, element by element.
    pub fn list_from_json(v: &JsonValue) -> (r: Option<Vec<Channel>>)
        ensures
            match r {
                Some(out) => channel_list_of(*v, out@),
                None => !channel_list_ok(*v),
            },
    {
        let items = match v {
            JsonValue::Array(items) => items,
            _ => return None,
        };
        let mut out: Vec<Channel> = Vec::new();
        let mut i: usize = 0;
        while i < items.len()
            invariant
                *v == JsonValue::Array(*items),
                i <= items@.len(),
                out@.len() == i,
                forall|j: int| 0 <= j < i ==> #[trigger] channel_of((*items)@[j], out@[j]),
            decreases items@.len() - i,
        {
            match Channel::from_json(&items[i]) {
                Some(x) => out.push(x),
                None => {
                    assert(!channel_ok((*items)@[i as int]));
                    let ghost arr = JsonValue::Array(*items);
                    assert(arr->Array_0 == *items);
                    assert(channel_list_ok(arr) == (forall|k: int|
                        0 <= k < (*items)@.len() ==> #[trigger] channel_ok((*items)@[k])));
                    return None;
                },
            }
            i = i + 1;
        }
        Some(out)
    }
}

} // verus!
