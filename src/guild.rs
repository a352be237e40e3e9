//! Guild members and interactions.
use vstd::prelude::*;
use crate::json::{
    JsonValue, field, str_of, opt_str_of, u64_of, bool_of, string_list_of, string_list_ok, decode_strings,
    lemma_string_list_unique,
};
use crate::model::{Timestamp, timestamp_of, opt_timestamp_of, get_timestamp, get_opt_timestamp};
use crate::user::{UserData, user_field_of, opt_user_field_of, get_user, get_opt_user};

verus! {

/// A user's membership of a guild.
#[derive(Debug)]
pub struct GuildMemberData {
    pub avatar: Option<String>,
    pub communication_disabled_until: Option<Timestamp>,
    pub deaf: bool,
    pub flags: u64,
    pub joined_at: Timestamp,
    pub mute: bool,
    pub nick: Option<String>,
    pub pending: bool,
    pub premium_since: Option<String>,
    pub roles: Vec<String>,
    pub user: Option<UserData>,
}

/// `x` is what the JSON object `v` describes.
pub open spec fn member_of(v: JsonValue, x: GuildMemberData) -> bool {
    &&& opt_str_of(field(v, "avatar"@)) == Some(x.avatar)
    &&& opt_timestamp_of(field(v, "communication_disabled_until"@)) == Some(x.communication_disabled_until)
    &&& bool_of(field(v, "deaf"@)) == Some(x.deaf)
    &&& u64_of(field(v, "flags"@)) == Some(x.flags)
    &&& timestamp_of(field(v, "joined_at"@)) == Some(x.joined_at)
    &&& bool_of(field(v, "mute"@)) == Some(x.mute)
    &&& opt_str_of(field(v, "nick"@)) == Some(x.nick)
    &&& bool_of(field(v, "pending"@)) == Some(x.pending)
    &&& opt_str_of(field(v, "premium_since"@)) == Some(x.premium_since)
    &&& string_list_of(field(v, "roles"@), x.roles@)
    &&& opt_user_field_of(field(v, "user"@)) == Some(x.user)
}

/// `v` has every field that it needs, each of the right kind.
pub open spec fn member_ok(v: JsonValue) -> bool {
    &&& opt_str_of(field(v, "avatar"@)) is Some
    &&& opt_timestamp_of(field(v, "communication_disabled_until"@)) is Some
    &&& bool_of(field(v, "deaf"@)) is Some
    &&& u64_of(field(v, "flags"@)) is Some
    &&& timestamp_of(field(v, "joined_at"@)) is Some
    &&& bool_of(field(v, "mute"@)) is Some
    &&& opt_str_of(field(v, "nick"@)) is Some
    &&& bool_of(field(v, "pending"@)) is Some
    &&& opt_str_of(field(v, "premium_since"@)) is Some
    &&& string_list_ok(field(v, "roles"@))
    &&& opt_user_field_of(field(v, "user"@)) is Some
}

impl GuildMemberData {
    /// Reads the value from a JSON object.
    pub fn from_json(v: &JsonValue) -> (r: Option<GuildMemberData>)
        ensures
            match r {
                Some(x) => member_of(*v, x),
                None => !member_ok(*v),
            },
    {
        let avatar = match v.get_opt_string("avatar") {
            Some(x) => x,
            None => return None,
        };
        let communication_disabled_until = match get_opt_timestamp(v, "communication_disabled_until") {
            Some(x) => x,
            None => return None,
        };
        let deaf = match v.get_bool("deaf") {
            Some(x) => x,
            None => return None,
        };
        let flags = match v.get_u64("flags") {
            Some(x) => x,
            None => return None,
        };
        let joined_at = match get_timestamp(v, "joined_at") {
            Some(x) => x,
            None => return None,
        };
        let mute = match v.get_bool("mute") {
            Some(x) => x,
            None => return None,
        };
        let nick = match v.get_opt_string("nick") {
            Some(x) => x,
            None => return None,
        };
        let pending = match v.get_bool("pending") {
            Some(x) => x,
            None => return None,
        };
        let premium_since = match v.get_opt_string("premium_since") {
            Some(x) => x,
            None => return None,
        };
        let roles = match decode_strings(v, "roles") {
            Some(x) => x,
            None => return None,
        };
        let user = match get_opt_user(v, "user") {
            Some(x) => x,
            None => return None,
        };
        Some(GuildMemberData { avatar, communication_disabled_until, deaf, flags, joined_at, mute, nick, pending, premium_since, roles, user })
    }
}

/// The membership under a field.
pub open spec fn member_field_of(f: Option<JsonValue>, x: GuildMemberData) -> bool {
    match f {
        Some(m) => member_of(m, x),
        None => false,
    }
}

pub open spec fn member_field_ok(f: Option<JsonValue>) -> bool {
    match f {
        Some(m) => member_ok(m),
        None => false,
    }
}

/// An optional membership: absent or null reads as none.
pub open spec fn opt_member_field_of(f: Option<JsonValue>, x: Option<GuildMemberData>) -> bool {
    match f {
        None => x is None,
        Some(JsonValue::Null) => x is None,
        Some(m) => x matches Some(y) && member_of(m, y),
    }
}

pub open spec fn opt_member_field_ok(f: Option<JsonValue>) -> bool {
    match f {
        None => true,
        Some(JsonValue::Null) => true,
        Some(m) => member_ok(m),
    }
}

pub fn get_member(v: &JsonValue, key: &str) -> (r: Option<GuildMemberData>)
    ensures
        match r {
            Some(x) => member_field_of(field(*v, key@), x),
            None => !member_field_ok(field(*v, key@)),
        },
{
    match v.get(key) {
        Some(m) => GuildMemberData::from_json(m),
        None => None,
    }
}

pub fn get_opt_member(v: &JsonValue, key: &str) -> (r: Option<Option<GuildMemberData>>)
    ensures
        match r {
            Some(x) => opt_member_field_of(field(*v, key@), x),
            None => !opt_member_field_ok(field(*v, key@)),
        },
{
    match v.get(key) {
        None => Some(None),
        Some(JsonValue::Null) => Some(None),
        Some(m) => match GuildMemberData::from_json(m) {
            Some(x) => Some(Some(x)),
            None => None,
        },
    }
}

/// Details of the interaction behind a command message; none are kept.
#[derive(Debug, Clone, Copy, PartialEq, Eq, Structural)]
pub struct Metadata {}

/// Any object reads as the (empty) interaction details.
pub open spec fn metadata_field_of(f: Option<JsonValue>) -> Option<Metadata> {
    match f {
        Some(JsonValue::Object(_)) => Some(Metadata {}),
        _ => None,
    }
}

pub fn get_metadata(v: &JsonValue, key: &str) -> (r: Option<Metadata>)
    ensures
        r == metadata_field_of(field(*v, key@)),
{
    match v.get(key) {
        Some(JsonValue::Object(_)) => Some(Metadata {}),
        _ => None,
    }
}

/// The interaction that a command message answers.
#[derive(Debug)]
pub struct Data {
    pub id: String,
    pub member: GuildMemberData,
    pub name: String,
    /// The interaction's numeric type.
    pub kind: u64,
    pub user: UserData,
}

/// `x` is what the JSON object `v` describes.
pub open spec fn interaction_of(v: JsonValue, x: Data) -> bool {
    &&& str_of(field(v, "id"@)) == Some(x.id)
    &&& member_field_of(field(v, "member"@), x.member)
    &&& str_of(field(v, "name"@)) == Some(x.name)
    &&& u64_of(field(v, "type"@)) == Some(x.kind)
    &&& user_field_of(field(v, "user"@)) == Some(x.user)
}

/// `v` has every field that it needs, each of the right kind.
pub open spec fn interaction_ok(v: JsonValue) -> bool {
    &&& str_of(field(v, "id"@)) is Some
    &&& member_field_ok(field(v, "member"@))
    &&& str_of(field(v, "name"@)) is Some
    &&& u64_of(field(v, "type"@)) is Some
    &&& user_field_of(field(v, "user"@)) is Some
}

impl Data {
    /// Reads the value from a JSON object.
    pub fn from_json(v: &JsonValue) -> (r: Option<Data>)
        ensures
            match r {
                Some(x) => interaction_of(*v, x),
                None => !interaction_ok(*v),
            },
    {
        let id = match v.get_string("id") {
            Some(x) => x,
            None => return None,
        };
        let member = match get_member(v, "member") {
            Some(x) => x,
            None => return None,
        };
        let name = match v.get_string("name") {
            Some(x) => x,
            None => return None,
        };
        let kind = match v.get_u64("type") {
            Some(x) => x,
            None => return None,
        };
        let user = match get_user(v, "user") {
            Some(x) => x,
            None => return None,
        };
        Some(Data { id, member, name, kind, user })
    }
}

pub open spec fn interaction_field_of(f: Option<JsonValue>, x: Data) -> bool {
    match f {
        Some(d) => interaction_of(d, x),
        None => false,
    }
}

pub open spec fn interaction_field_ok(f: Option<JsonValue>) -> bool {
    match f {
        Some(d) => interaction_ok(d),
        None => false,
    }
}

pub fn get_interaction(v: &JsonValue, key: &str) -> (r: Option<Data>)
    ensures
        match r {
            Some(x) => interaction_field_of(field(*v, key@), x),
            None => !interaction_field_ok(field(*v, key@)),
        },
{
    match v.get(key) {
        Some(d) => Data::from_json(d),
        None => None,
    }
}

/// Two values agree field by field, lists by their contents.
pub open spec fn same_member(a: GuildMemberData, b: GuildMemberData) -> bool {
    &&& a.avatar == b.avatar
    &&& a.communication_disabled_until == b.communication_disabled_until
    &&& a.deaf == b.deaf
    &&& a.flags == b.flags
    &&& a.joined_at == b.joined_at
    &&& a.mute == b.mute
    &&& a.nick == b.nick
    &&& a.pending == b.pending
    &&& a.premium_since == b.premium_since
    &&& a.roles@ == b.roles@
    &&& a.user == b.user
}

/// A JSON object describes at most one such value.
pub proof fn lemma_member_unique(v: JsonValue, a: GuildMemberData, b: GuildMemberData)
    requires
        member_of(v, a),
        member_of(v, b),
    ensures
        same_member(a, b),
{
    lemma_string_list_unique(field(v, "roles"@), a.roles@, b.roles@);
}

pub open spec fn same_opt_member(a: Option<GuildMemberData>, b: Option<GuildMemberData>) -> bool {
    &&& (a is Some <==> b is Some)
    &&& a is Some ==> same_member(a->Some_0, b->Some_0)
}

pub proof fn lemma_member_field_unique(f: Option<JsonValue>, a: GuildMemberData, b: GuildMemberData)
    requires
        member_field_of(f, a),
        member_field_of(f, b),
    ensures
        same_member(a, b),
{
    if let Some(m) = f {
        lemma_member_unique(m, a, b);
    }
}

pub proof fn lemma_opt_member_field_unique(f: Option<JsonValue>, a: Option<GuildMemberData>, b: Option<GuildMemberData>)
    requires
        opt_member_field_of(f, a),
        opt_member_field_of(f, b),
    ensures
        same_opt_member(a, b),
{
    if let (Some(m), Some(x), Some(y)) = (f, a, b) {
        lemma_member_unique(m, x, y);
    }
}

/// Two values agree field by field, lists by their contents.
pub open spec fn same_interaction(a: Data, b: Data) -> bool {
    &&& a.id == b.id
    &&& same_member(a.member, b.member)
    &&& a.name == b.name
    &&& a.kind == b.kind
    &&& a.user == b.user
}

/// A JSON object describes at most one such value.
pub proof fn lemma_interaction_unique(v: JsonValue, a: Data, b: Data)
    requires
        interaction_of(v, a),
        interaction_of(v, b),
    ensures
        same_interaction(a, b),
{
    lemma_member_field_unique(field(v, "member"@), a.member, b.member);
}

pub proof fn lemma_interaction_field_unique(f: Option<JsonValue>, a: Data, b: Data)
    requires
        interaction_field_of(f, a),
        interaction_field_of(f, b),
    ensures
        same_interaction(a, b),
{
    if let Some(d) = f {
        lemma_interaction_unique(d, a, b);
    }
}

/// The kinds of audit log entries.
#[derive(Debug, Clone, Copy, PartialEq, Eq, Structural)]
pub enum EventType {
    /// Server settings were updated
    GuildUpdate,
    /// Channel was created
    ChannelCreate,
    /// Channel settings were updated
    ChannelUpdate,
    /// Channel was deleted
    ChannelDelete,
    /// Permission overwrite was added to a channel
    ChannelOverwriteCreate,
    /// Permission overwrite was updated for a channel
    ChannelOverwriteUpdate,
    /// Permission overwrite was deleted from a channel
    ChannelOverwriteDelete,
    /// Member was removed from server
    MemberKick,
    /// Members were pruned from server
    MemberPrune,
    /// Member was banned from server
    MemberBanAdd,
    /// Server ban was lifted for a member
    MemberBanRemove,
    /// Member was updated in server
    MemberUpdate,
    /// Member was added or removed from a role
    MemberRoleUpdate,
    /// Member was moved to a different voice channel
    MemberMove,
    /// Member was disconnected from a voice channel
    MemberDisconnect,
    /// Bot user was added to server
    BotAdd,
    /// Role was created
    RoleCreate,
    /// Role was edited
    RoleUpdate,
    /// Role was deleted
    RoleDelete,
    /// Server invite was created
    InviteCreate,
    /// Server invite was updated
    InviteUpdate,
    /// Server invite was deleted
    InviteDelete,
    /// Webhook was created
    WebhookCreate,
    /// Webhook properties or channel were updated
    WebhookUpdate,
    /// Webhook was deleted
    WebhookDelete,
    /// Emoji was created
    EmojiCreate,
    /// Emoji name was updated
    EmojiUpdate,
    /// Emoji was deleted
    EmojiDelete,
    /// Single message was deleted
    MessageDelete,
    /// Multiple messages were deleted
    MessageBulkDelete,
    /// Message was pinned to a channel
    MessagePin,
    /// Message was unpinned from a channel
    MessageUnpin,
    /// App was added to server
    IntegrationCreate,
    /// App was updated (as an example, its scopes were updated)
    IntegrationUpdate,
    /// App was removed from server
    IntegrationDelete,
    /// Stage instance was created (stage channel becomes live)
    StageInstanceCreate,
    /// Stage instance details were updated
    StageInstanceUpdate,
    /// Stage instance was deleted (stage channel no longer live)
    StageInstanceDelete,
    /// Sticker was created
    StickerCreate,
    /// Sticker details were updated
    StickerUpdate,
    /// Sticker was deleted
    StickerDelete,
    /// Event was created
    GuildScheduledEventCreate,
    /// Event was updated
    GuildScheduledEventUpdate,
    /// Event was cancelled
    GuildScheduledEventDelete,
    /// Thread was created in a channel
    ThreadCreate,
    /// Thread was updated
    ThreadUpdate,
    /// Thread was deleted
    ThreadDelete,
    /// Permissions were updated for a command
    ApplicationCommandPermissionUpdate,
    /// Auto Moderation rule was created
    AutoModerationRuleCreate,
    /// Auto Moderation rule was updated
    AutoModerationRuleUpdate,
    /// Auto Moderation rule was deleted
    AutoModerationRuleDelete,
    /// Message was blocked by Auto Moderation
    AutoModerationBlockMessage,
    /// Message was flagged by Auto Moderation
    AutoModerationFlagToChannel,
    /// Member was timed out by Auto Moderation
    AutoModerationUserCommunicationDisabled,
    /// Creator monetization request was created
    CreatorMonetizationRequestCreated,
    /// Creator monetization terms were accepted
    CreatorMonetizationTermsAccepted,
    /// Guild Onboarding Question was created
    OnboardingPromptCreate,
    /// Guild Onboarding Question was updated
    OnboardingPromptUpdate,
    /// Guild Onboarding Question was deleted
    OnboardingPromptDelete,
    /// Guild Onboarding was created
    OnboardingCreate,
    /// Guild Onboarding was updated
    OnboardingUpdate,
    /// Guild Server Guide was created
    HomeSettingsCreate,
    /// Guild Server Guide was updated
    HomeSettingsUpdate,
}

} // verus!
