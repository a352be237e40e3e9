//! Users as the platform describes them.
use vstd::prelude::*;
use crate::json::{
    JsonValue, field, str_of, opt_str_of, opt_u64_of, u64_of, opt_u32_of, bool_of, opt_bool_of, list_of, list_ok,
    string_list_of, string_list_ok, decode_strings,
};
use crate::model::{Snowflake, Timestamp, snowflake_of, timestamp_of, get_snowflake, get_timestamp};

verus! {

/// The subscription tier of an account.
#[derive(Debug, Clone, Copy, PartialEq, Eq)]
pub enum NitroType {
    NoNitro,
    NitroClassic,
    Nitro,
    NitroBasic,
}

/// The public profile of a user.
#[derive(Debug)]
pub struct UserData {
    pub id: Snowflake,
    pub username: String,
    /// The avatar's hash.
    pub avatar: Option<String>,
    pub discriminator: String,
    pub public_flags: Option<u64>,
}

/// A partial user, as some responses send it; the identifier is always there.
#[derive(Debug)]
pub struct UserDataLimited {
    pub id: Snowflake,
    pub username: Option<String>,
    pub avatar: Option<String>,
    pub discriminator: Option<String>,
    pub public_flags: Option<u64>,
}

/// What a JSON object describes as a user's public profile.
pub open spec fn user_data_of(v: JsonValue) -> Option<UserData> {
    match (
        snowflake_of(field(v, "id"@)),
        str_of(field(v, "username"@)),
        opt_str_of(field(v, "avatar"@)),
        str_of(field(v, "discriminator"@)),
        opt_u64_of(field(v, "public_flags"@)),
    ) {
        (Some(id), Some(username), Some(avatar), Some(discriminator), Some(public_flags)) => Some(
            UserData { id, username, avatar, discriminator, public_flags },
        ),
        _ => None,
    }
}

impl UserData {
    /// Reads a user's public profile from a JSON object.
    pub fn from_json(v: &JsonValue) -> (r: Option<UserData>)
        ensures
            r == user_data_of(*v),
    {
        let id = match get_snowflake(v, "id") {
            Some(x) => x,
            None => return None,
        };
        let username = match v.get_string("username") {
            Some(x) => x,
            None => return None,
        };
        let avatar = match v.get_opt_string("avatar") {
            Some(x) => x,
            None => return None,
        };
        let discriminator = match v.get_string("discriminator") {
            Some(x) => x,
            None => return None,
        };
        let public_flags = match v.get_opt_u64("public_flags") {
            Some(x) => x,
            None => return None,
        };
        Some(UserData { id, username, avatar, discriminator, public_flags })
    }
}

/// The profile under a field, if it is one.
pub open spec fn user_field_of(f: Option<JsonValue>) -> Option<UserData> {
    match f {
        Some(a) => user_data_of(a),
        None => None,
    }
}

/// An optional profile: absent or null reads as `Some(None)`.
pub open spec fn opt_user_field_of(f: Option<JsonValue>) -> Option<Option<UserData>> {
    match f {
        None => Some(None),
        Some(JsonValue::Null) => Some(None),
        Some(a) => match user_data_of(a) {
            Some(u) => Some(Some(u)),
            None => None,
        },
    }
}

/// The first profile of an array of them; an empty array has none.
pub open spec fn first_user_of(f: Option<JsonValue>) -> Option<UserData> {
    match f {
        Some(JsonValue::Array(items)) => if items@.len() > 0 {
            user_data_of(items@[0])
        } else {
            None
        },
        _ => None,
    }
}

/// The subscription tier that a number stands for.
pub open spec fn nitro_of(f: Option<JsonValue>) -> Option<NitroType> {
    match u64_of(f) {
        Some(0) => Some(NitroType::NoNitro),
        Some(1) => Some(NitroType::NitroClassic),
        Some(2) => Some(NitroType::Nitro),
        Some(3) => Some(NitroType::NitroBasic),
        _ => None,
    }
}

pub fn get_user(v: &JsonValue, key: &str) -> (r: Option<UserData>)
    ensures
        r == user_field_of(field(*v, key@)),
{
    match v.get(key) {
        Some(a) => UserData::from_json(a),
        None => None,
    }
}

pub fn get_opt_user(v: &JsonValue, key: &str) -> (r: Option<Option<UserData>>)
    ensures
        r == opt_user_field_of(field(*v, key@)),
{
    match v.get(key) {
        None => Some(None),
        Some(JsonValue::Null) => Some(None),
        Some(a) => match UserData::from_json(a) {
            Some(u) => Some(Some(u)),
            None => None,
        },
    }
}

/// The first profile of the array under `key`.
pub fn get_first_user(v: &JsonValue, key: &str) -> (r: Option<UserData>)
    ensures
        r == first_user_of(field(*v, key@)),
{
    match v.get(key) {
        Some(JsonValue::Array(items)) => if items.len() > 0 {
            UserData::from_json(&items[0])
        } else {
            None
        },
        _ => None,
    }
}

pub fn get_nitro(v: &JsonValue, key: &str) -> (r: Option<NitroType>)
    ensures
        r == nitro_of(field(*v, key@)),
{
    match v.get_u64(key) {
        Some(0) => Some(NitroType::NoNitro),
        Some(1) => Some(NitroType::NitroClassic),
        Some(2) => Some(NitroType::Nitro),
        Some(3) => Some(NitroType::NitroBasic),
        _ => None,
    }
}

/// The signed-in account, as the gateway's ready event sends it.
#[derive(Debug)]
pub struct GatewayUserData {
    pub id: Snowflake,
    pub username: String,
    pub avatar: Option<String>,
    pub discriminator: String,
    pub premium_type: NitroType,
    pub flags: u64,
    pub banner: Option<String>,
    pub accent_color: Option<u32>,
    pub global_name: Option<String>,
    pub avatar_decoration_data: Option<String>,
    pub banner_color: Option<String>,
    pub mfa_enabled: bool,
    pub email: String,
    pub verified: bool,
    pub phone: Option<String>,
    pub nsfw_allowed: bool,
    pub bio: String,
}

/// What the JSON object `v` describes.
pub open spec fn gateway_user_of(v: JsonValue) -> Option<GatewayUserData> {
    match (
        snowflake_of(field(v, "id"@)),
        str_of(field(v, "username"@)),
        opt_str_of(field(v, "avatar"@)),
        str_of(field(v, "discriminator"@)),
        nitro_of(field(v, "premium_type"@)),
        u64_of(field(v, "flags"@)),
        opt_str_of(field(v, "banner"@)),
        opt_u32_of(field(v, "accent_color"@)),
        opt_str_of(field(v, "global_name"@)),
        opt_str_of(field(v, "avatar_decoration_data"@)),
        opt_str_of(field(v, "banner_color"@)),
        bool_of(field(v, "mfa_enabled"@)),
        str_of(field(v, "email"@)),
        bool_of(field(v, "verified"@)),
        opt_str_of(field(v, "phone"@)),
        bool_of(field(v, "nsfw_allowed"@)),
        str_of(field(v, "bio"@)),
    ) {
        (Some(id), Some(username), Some(avatar), Some(discriminator), Some(premium_type), Some(flags), Some(banner), Some(accent_color), Some(global_name), Some(avatar_decoration_data), Some(banner_color), Some(mfa_enabled), Some(email), Some(verified), Some(phone), Some(nsfw_allowed), Some(bio)) => Some(GatewayUserData { id, username, avatar, discriminator, premium_type, flags, banner, accent_color, global_name, avatar_decoration_data, banner_color, mfa_enabled, email, verified, phone, nsfw_allowed, bio }),
        _ => None,
    }
}

impl GatewayUserData {
    /// Reads the value from a JSON object.
    pub fn from_json(v: &JsonValue) -> (r: Option<GatewayUserData>)
        ensures
            r == gateway_user_of(*v),
    {
        let id = match get_snowflake(v, "id") {
            Some(x) => x,
            None => return None,
        };
        let username = match v.get_string("username") {
            Some(x) => x,
            None => return None,
        };
        let avatar = match v.get_opt_string("avatar") {
            Some(x) => x,
            None => return None,
        };
        let discriminator = match v.get_string("discriminator") {
            Some(x) => x,
            None => return None,
        };
        let premium_type = match get_nitro(v, "premium_type") {
            Some(x) => x,
            None => return None,
        };
        let flags = match v.get_u64("flags") {
            Some(x) => x,
            None => return None,
        };
        let banner = match v.get_opt_string("banner") {
            Some(x) => x,
            None => return None,
        };
        let accent_color = match v.get_opt_u32("accent_color") {
            Some(x) => x,
            None => return None,
        };
        let global_name = match v.get_opt_string("global_name") {
            Some(x) => x,
            None => return None,
        };
        let avatar_decoration_data = match v.get_opt_string("avatar_decoration_data") {
            Some(x) => x,
            None => return None,
        };
        let banner_color = match v.get_opt_string("banner_color") {
            Some(x) => x,
            None => return None,
        };
        let mfa_enabled = match v.get_bool("mfa_enabled") {
            Some(x) => x,
            None => return None,
        };
        let email = match v.get_string("email") {
            Some(x) => x,
            None => return None,
        };
        let verified = match v.get_bool("verified") {
            Some(x) => x,
            None => return None,
        };
        let phone = match v.get_opt_string("phone") {
            Some(x) => x,
            None => return None,
        };
        let nsfw_allowed = match v.get_bool("nsfw_allowed") {
            Some(x) => x,
            None => return None,
        };
        let bio = match v.get_string("bio") {
            Some(x) => x,
            None => return None,
        };
        Some(GatewayUserData { id, username, avatar, discriminator, premium_type, flags, banner, accent_color, global_name, avatar_decoration_data, banner_color, mfa_enabled, email, verified, phone, nsfw_allowed, bio })
    }
}

/// The signed-in account, as the REST layer returns it.
#[derive(Debug)]
pub struct MainUserData {
    pub id: Snowflake,
    pub username: String,
    pub avatar: Option<String>,
    pub discriminator: String,
    pub public_flags: u64,
    pub premium_type: NitroType,
    pub flags: u64,
    pub banner: Option<String>,
    pub accent_color: Option<u32>,
    pub global_name: Option<String>,
    pub avatar_decoration_data: Option<String>,
    pub banner_color: Option<String>,
    pub mfa_enabled: bool,
    pub locale: String,
    pub email: String,
    pub verified: bool,
    pub phone: Option<String>,
    pub nsfw_allowed: bool,
    pub linked_users: Vec<String>,
    pub bio: String,
    pub authenticator_types: Vec<String>,
}

/// `x` is what the JSON object `v` describes.
pub open spec fn main_user_of(v: JsonValue, x: MainUserData) -> bool {
    &&& snowflake_of(field(v, "id"@)) == Some(x.id)
    &&& str_of(field(v, "username"@)) == Some(x.username)
    &&& opt_str_of(field(v, "avatar"@)) == Some(x.avatar)
    &&& str_of(field(v, "discriminator"@)) == Some(x.discriminator)
    &&& u64_of(field(v, "public_flags"@)) == Some(x.public_flags)
    &&& nitro_of(field(v, "premium_type"@)) == Some(x.premium_type)
    &&& u64_of(field(v, "flags"@)) == Some(x.flags)
    &&& opt_str_of(field(v, "banner"@)) == Some(x.banner)
    &&& opt_u32_of(field(v, "accent_color"@)) == Some(x.accent_color)
    &&& opt_str_of(field(v, "global_name"@)) == Some(x.global_name)
    &&& opt_str_of(field(v, "avatar_decoration_data"@)) == Some(x.avatar_decoration_data)
    &&& opt_str_of(field(v, "banner_color"@)) == Some(x.banner_color)
    &&& bool_of(field(v, "mfa_enabled"@)) == Some(x.mfa_enabled)
    &&& str_of(field(v, "locale"@)) == Some(x.locale)
    &&& str_of(field(v, "email"@)) == Some(x.email)
    &&& bool_of(field(v, "verified"@)) == Some(x.verified)
    &&& opt_str_of(field(v, "phone"@)) == Some(x.phone)
    &&& bool_of(field(v, "nsfw_allowed"@)) == Some(x.nsfw_allowed)
    &&& string_list_of(field(v, "linked_users"@), x.linked_users@)
    &&& str_of(field(v, "bio"@)) == Some(x.bio)
    &&& string_list_of(field(v, "authenticator_types"@), x.authenticator_types@)
}

/// `v` has every field that it needs, each of the right kind.
pub open spec fn main_user_ok(v: JsonValue) -> bool {
    &&& snowflake_of(field(v, "id"@)) is Some
    &&& str_of(field(v, "username"@)) is Some
    &&& opt_str_of(field(v, "avatar"@)) is Some
    &&& str_of(field(v, "discriminator"@)) is Some
    &&& u64_of(field(v, "public_flags"@)) is Some
    &&& nitro_of(field(v, "premium_type"@)) is Some
    &&& u64_of(field(v, "flags"@)) is Some
    &&& opt_str_of(field(v, "banner"@)) is Some
    &&& opt_u32_of(field(v, "accent_color"@)) is Some
    &&& opt_str_of(field(v, "global_name"@)) is Some
    &&& opt_str_of(field(v, "avatar_decoration_data"@)) is Some
    &&& opt_str_of(field(v, "banner_color"@)) is Some
    &&& bool_of(field(v, "mfa_enabled"@)) is Some
    &&& str_of(field(v, "locale"@)) is Some
    &&& str_of(field(v, "email"@)) is Some
    &&& bool_of(field(v, "verified"@)) is Some
    &&& opt_str_of(field(v, "phone"@)) is Some
    &&& bool_of(field(v, "nsfw_allowed"@)) is Some
    &&& string_list_ok(field(v, "linked_users"@))
    &&& str_of(field(v, "bio"@)) is Some
    &&& string_list_ok(field(v, "authenticator_types"@))
}

impl MainUserData {
    /// Reads the value from a JSON object.
    pub fn from_json(v: &JsonValue) -> (r: Option<MainUserData>)
        ensures
            match r {
                Some(x) => main_user_of(*v, x),
                None => !main_user_ok(*v),
            },
    {
        let id = match get_snowflake(v, "id") {
            Some(x) => x,
            None => return None,
        };
        let username = match v.get_string("username") {
            Some(x) => x,
            None => return None,
        };
        let avatar = match v.get_opt_string("avatar") {
            Some(x) => x,
            None => return None,
        };
        let discriminator = match v.get_string("discriminator") {
            Some(x) => x,
            None => return None,
        };
        let public_flags = match v.get_u64("public_flags") {
            Some(x) => x,
            None => return None,
        };
        let premium_type = match get_nitro(v, "premium_type") {
            Some(x) => x,
            None => return None,
        };
        let flags = match v.get_u64("flags") {
            Some(x) => x,
            None => return None,
        };
        let banner = match v.get_opt_string("banner") {
            Some(x) => x,
            None => return None,
        };
        let accent_color = match v.get_opt_u32("accent_color") {
            Some(x) => x,
            None => return None,
        };
        let global_name = match v.get_opt_string("global_name") {
            Some(x) => x,
            None => return None,
        };
        let avatar_decoration_data = match v.get_opt_string("avatar_decoration_data") {
            Some(x) => x,
            None => return None,
        };
        let banner_color = match v.get_opt_string("banner_color") {
            Some(x) => x,
            None => return None,
        };
        let mfa_enabled = match v.get_bool("mfa_enabled") {
            Some(x) => x,
            None => return None,
        };
        let locale = match v.get_string("locale") {
            Some(x) => x,
            None => return None,
        };
        let email = match v.get_string("email") {
            Some(x) => x,
            None => return None,
        };
        let verified = match v.get_bool("verified") {
            Some(x) => x,
            None => return None,
        };
        let phone = match v.get_opt_string("phone") {
            Some(x) => x,
            None => return None,
        };
        let nsfw_allowed = match v.get_bool("nsfw_allowed") {
            Some(x) => x,
            None => return None,
        };
        let linked_users = match decode_strings(v, "linked_users") {
            Some(x) => x,
            None => return None,
        };
        let bio = match v.get_string("bio") {
            Some(x) => x,
            None => return None,
        };
        let authenticator_types = match decode_strings(v, "authenticator_types") {
            Some(x) => x,
            None => return None,
        };
        Some(MainUserData { id, username, avatar, discriminator, public_flags, premium_type, flags, banner, accent_color, global_name, avatar_decoration_data, banner_color, mfa_enabled, locale, email, verified, phone, nsfw_allowed, linked_users, bio, authenticator_types })
    }
}

/// Reads an array of `UserData`, element by element.
pub fn decode_users(v: &JsonValue, key: &str) -> (r: Option<Vec<UserData>>)
    ensures
        match r {
            Some(out) => list_of(field(*v, key@), out@, |x: JsonValue| user_data_of(x)),
            None => !list_ok(field(*v, key@), |x: JsonValue| user_data_of(x)),
        },
{
    let items = match v.get(key) {
        Some(JsonValue::Array(items)) => items,
        _ => return None,
    };
    let mut out: Vec<UserData> = Vec::new();
    let mut i: usize = 0;
    while i < items.len()
        invariant
            field(*v, key@) == Some(JsonValue::Array(*items)),
            i <= items@.len(),
            out@.len() == i,
            forall|j: int| 0 <= j < i ==> user_data_of(items@[j]) == Some(#[trigger] out@[j]),
        decreases items@.len() - i,
    {
        match UserData::from_json(&items[i]) {
            Some(x) => out.push(x),
            None => {
                assert((|x: JsonValue| user_data_of(x))(items@[i as int]) is None);
                return None;
            },
        }
        i = i + 1;
    }
    Some(out)
}

/// A friend request that was accepted.
#[derive(Debug)]
pub struct AcceptedFriendRequest {
    pub nickname: Option<String>,
    pub should_notify: Option<bool>,
    pub friend_request_sent_date: Timestamp,
    pub other_user: UserData,
}

/// What the JSON object `v` describes.
pub open spec fn accepted_request_of(v: JsonValue) -> Option<AcceptedFriendRequest> {
    match (
        opt_str_of(field(v, "nickname"@)),
        opt_bool_of(field(v, "should_notify"@)),
        timestamp_of(field(v, "since"@)),
        user_field_of(field(v, "user"@)),
    ) {
        (Some(nickname), Some(should_notify), Some(friend_request_sent_date), Some(other_user)) => Some(AcceptedFriendRequest { nickname, should_notify, friend_request_sent_date, other_user }),
        _ => None,
    }
}

impl AcceptedFriendRequest {
    /// Reads the value from a JSON object.
    pub fn from_json(v: &JsonValue) -> (r: Option<AcceptedFriendRequest>)
        ensures
            r == accepted_request_of(*v),
    {
        let nickname = match v.get_opt_string("nickname") {
            Some(x) => x,
            None => return None,
        };
        let should_notify = match v.get_opt_bool("should_notify") {
            Some(x) => x,
            None => return None,
        };
        let friend_request_sent_date = match get_timestamp(v, "since") {
            Some(x) => x,
            None => return None,
        };
        let other_user = match get_user(v, "user") {
            Some(x) => x,
            None => return None,
        };
        Some(AcceptedFriendRequest { nickname, should_notify, friend_request_sent_date, other_user })
    }
}

/// A friend request that someone sent to the user.
#[derive(Debug)]
pub struct IncomingFriendRequest {
    pub nickname: Option<String>,
    pub should_notify: bool,
    pub friend_request_sent_date: Timestamp,
    pub from_user: UserData,
}

/// What the JSON object `v` describes.
pub open spec fn incoming_request_of(v: JsonValue) -> Option<IncomingFriendRequest> {
    match (
        opt_str_of(field(v, "nickname"@)),
        bool_of(field(v, "should_notify"@)),
        timestamp_of(field(v, "since"@)),
        user_field_of(field(v, "user"@)),
    ) {
        (Some(nickname), Some(should_notify), Some(friend_request_sent_date), Some(from_user)) => Some(IncomingFriendRequest { nickname, should_notify, friend_request_sent_date, from_user }),
        _ => None,
    }
}

impl IncomingFriendRequest {
    /// Reads the value from a JSON object.
    pub fn from_json(v: &JsonValue) -> (r: Option<IncomingFriendRequest>)
        ensures
            r == incoming_request_of(*v),
    {
        let nickname = match v.get_opt_string("nickname") {
            Some(x) => x,
            None => return None,
        };
        let should_notify = match v.get_bool("should_notify") {
            Some(x) => x,
            None => return None,
        };
        let friend_request_sent_date = match get_timestamp(v, "since") {
            Some(x) => x,
            None => return None,
        };
        let from_user = match get_user(v, "user") {
            Some(x) => x,
            None => return None,
        };
        Some(IncomingFriendRequest { nickname, should_notify, friend_request_sent_date, from_user })
    }
}

/// A friend request that the user sent.
#[derive(Debug)]
pub struct OutgoingFriendRequest {
    pub nickname: Option<String>,
    pub to_user: UserData,
}

/// What the JSON object `v` describes.
pub open spec fn outgoing_request_of(v: JsonValue) -> Option<OutgoingFriendRequest> {
    match (
        opt_str_of(field(v, "nickname"@)),
        user_field_of(field(v, "user"@)),
    ) {
        (Some(nickname), Some(to_user)) => Some(OutgoingFriendRequest { nickname, to_user }),
        _ => None,
    }
}

impl OutgoingFriendRequest {
    /// Reads the value from a JSON object.
    pub fn from_json(v: &JsonValue) -> (r: Option<OutgoingFriendRequest>)
        ensures
            r == outgoing_request_of(*v),
    {
        let nickname = match v.get_opt_string("nickname") {
            Some(x) => x,
            None => return None,
        };
        let to_user = match get_user(v, "user") {
            Some(x) => x,
            None => return None,
        };
        Some(OutgoingFriendRequest { nickname, to_user })
    }
}

/// A friend was removed.
#[derive(Debug)]
pub struct FriendRemoved {
    pub other_user_id: Snowflake,
    pub nickname: Option<String>,
    pub friends_since: Timestamp,
}

/// What the JSON object `v` describes.
pub open spec fn friend_removed_of(v: JsonValue) -> Option<FriendRemoved> {
    match (
        snowflake_of(field(v, "id"@)),
        opt_str_of(field(v, "nickname"@)),
        timestamp_of(field(v, "since"@)),
    ) {
        (Some(other_user_id), Some(nickname), Some(friends_since)) => Some(FriendRemoved { other_user_id, nickname, friends_since }),
        _ => None,
    }
}

impl FriendRemoved {
    /// Reads the value from a JSON object.
    pub fn from_json(v: &JsonValue) -> (r: Option<FriendRemoved>)
        ensures
            r == friend_removed_of(*v),
    {
        let other_user_id = match get_snowflake(v, "id") {
            Some(x) => x,
            None => return None,
        };
        let nickname = match v.get_opt_string("nickname") {
            Some(x) => x,
            None => return None,
        };
        let friends_since = match get_timestamp(v, "since") {
            Some(x) => x,
            None => return None,
        };
        Some(FriendRemoved { other_user_id, nickname, friends_since })
    }
}

/// A request to the user was declined by the user or withdrawn by its sender.
#[derive(Debug)]
pub struct IncomingRequestDeclinedOrCanceled {
    pub other_user_id: Snowflake,
    pub nickname: Option<String>,
    pub friend_request_sent_date: Timestamp,
}

/// What the JSON object `v` describes.
pub open spec fn incoming_declined_of(v: JsonValue) -> Option<IncomingRequestDeclinedOrCanceled> {
    match (
        snowflake_of(field(v, "id"@)),
        opt_str_of(field(v, "nickname"@)),
        timestamp_of(field(v, "since"@)),
    ) {
        (Some(other_user_id), Some(nickname), Some(friend_request_sent_date)) => Some(IncomingRequestDeclinedOrCanceled { other_user_id, nickname, friend_request_sent_date }),
        _ => None,
    }
}

impl IncomingRequestDeclinedOrCanceled {
    /// Reads the value from a JSON object.
    pub fn from_json(v: &JsonValue) -> (r: Option<IncomingRequestDeclinedOrCanceled>)
        ensures
            r == incoming_declined_of(*v),
    {
        let other_user_id = match get_snowflake(v, "id") {
            Some(x) => x,
            None => return None,
        };
        let nickname = match v.get_opt_string("nickname") {
            Some(x) => x,
            None => return None,
        };
        let friend_request_sent_date = match get_timestamp(v, "since") {
            Some(x) => x,
            None => return None,
        };
        Some(IncomingRequestDeclinedOrCanceled { other_user_id, nickname, friend_request_sent_date })
    }
}

/// A request the user sent was withdrawn.
#[derive(Debug)]
pub struct OutgoingRequestCanceled {
    pub other_user_id: Snowflake,
    pub nickname: Option<String>,
}

/// What the JSON object `v` describes.
pub open spec fn outgoing_canceled_of(v: JsonValue) -> Option<OutgoingRequestCanceled> {
    match (
        snowflake_of(field(v, "id"@)),
        opt_str_of(field(v, "nickname"@)),
    ) {
        (Some(other_user_id), Some(nickname)) => Some(OutgoingRequestCanceled { other_user_id, nickname }),
        _ => None,
    }
}

impl OutgoingRequestCanceled {
    /// Reads the value from a JSON object.
    pub fn from_json(v: &JsonValue) -> (r: Option<OutgoingRequestCanceled>)
        ensures
            r == outgoing_canceled_of(*v),
    {
        let other_user_id = match get_snowflake(v, "id") {
            Some(x) => x,
            None => return None,
        };
        let nickname = match v.get_opt_string("nickname") {
            Some(x) => x,
            None => return None,
        };
        Some(OutgoingRequestCanceled { other_user_id, nickname })
    }
}

/// The kinds of relationship that can be added.
#[derive(Debug, Clone, Copy, PartialEq, Eq, Structural)]
pub enum RelationshipAddType {
    Accepted,
    NewIncoming,
    NewOutgoing,
}

#[derive(Debug)]
pub enum RelationshipAddEvent {
    Accepted(AcceptedFriendRequest),
    NewIncoming(IncomingFriendRequest),
    NewOutgoing(OutgoingFriendRequest),
}

/// The kinds of relationship that can be removed.
#[derive(Debug, Clone, Copy, PartialEq, Eq, Structural)]
pub enum RelationshipRemoveType {
    Removed,
    IncomingDeclinedOrCanceled,
    OutgoingCanceled,
}

#[derive(Debug)]
pub enum RelationshipRemoveEvent {
    Removed(FriendRemoved),
    IncomingDeclinedOrCanceled(IncomingRequestDeclinedOrCanceled),
    OutgoingCanceled(OutgoingRequestCanceled),
}

/// What a relationship-added body describes, by its `type` (1, 3 or 4).
pub open spec fn relationship_add_of(v: JsonValue) -> Option<RelationshipAddEvent> {
    match u64_of(field(v, "type"@)) {
        Some(1) => match accepted_request_of(v) {
            Some(x) => Some(RelationshipAddEvent::Accepted(x)),
            None => None,
        },
        Some(3) => match incoming_request_of(v) {
            Some(x) => Some(RelationshipAddEvent::NewIncoming(x)),
            None => None,
        },
        Some(4) => match outgoing_request_of(v) {
            Some(x) => Some(RelationshipAddEvent::NewOutgoing(x)),
            None => None,
        },
        _ => None,
    }
}

/// What a relationship-removed body describes, by its `type` (1, 3 or 4).
pub open spec fn relationship_remove_of(v: JsonValue) -> Option<RelationshipRemoveEvent> {
    match u64_of(field(v, "type"@)) {
        Some(1) => match friend_removed_of(v) {
            Some(x) => Some(RelationshipRemoveEvent::Removed(x)),
            None => None,
        },
        Some(3) => match incoming_declined_of(v) {
            Some(x) => Some(RelationshipRemoveEvent::IncomingDeclinedOrCanceled(x)),
            None => None,
        },
        Some(4) => match outgoing_canceled_of(v) {
            Some(x) => Some(RelationshipRemoveEvent::OutgoingCanceled(x)),
            None => None,
        },
        _ => None,
    }
}

impl RelationshipAddEvent {
    pub fn from_json(v: &JsonValue) -> (r: Option<RelationshipAddEvent>)
        ensures
            r == relationship_add_of(*v),
    {
        match v.get_u64("type") {
            Some(1) => match AcceptedFriendRequest::from_json(v) {
                Some(x) => Some(RelationshipAddEvent::Accepted(x)),
                None => None,
            },
            Some(3) => match IncomingFriendRequest::from_json(v) {
                Some(x) => Some(RelationshipAddEvent::NewIncoming(x)),
                None => None,
            },
            Some(4) => match OutgoingFriendRequest::from_json(v) {
                Some(x) => Some(RelationshipAddEvent::NewOutgoing(x)),
                None => None,
            },
            _ => None,
        }
    }
}

impl RelationshipRemoveEvent {
    pub fn from_json(v: &JsonValue) -> (r: Option<RelationshipRemoveEvent>)
        ensures
            r == relationship_remove_of(*v),
    {
        match v.get_u64("type") {
            Some(1) => match FriendRemoved::from_json(v) {
                Some(x) => Some(RelationshipRemoveEvent::Removed(x)),
                None => None,
            },
            Some(3) => match IncomingRequestDeclinedOrCanceled::from_json(v) {
                Some(x) => Some(RelationshipRemoveEvent::IncomingDeclinedOrCanceled(x)),
                None => None,
            },
            Some(4) => match OutgoingRequestCanceled::from_json(v) {
                Some(x) => Some(RelationshipRemoveEvent::OutgoingCanceled(x)),
                None => None,
            },
            _ => None,
        }
    }
}

/// Images of an activity.
#[derive(Debug)]
pub struct Assets {
    pub large_image: String,
    pub large_text: String,
    pub small_image: String,
    pub small_text: String,
}

/// The kind of an activity.
#[derive(Debug, Clone, Copy, PartialEq, Eq, Structural)]
pub enum Type {
    Game,
    Streaming,
    Listening,
    Watching,
    Custom,
    Competing,
    ChannelStatus,
}

} // verus!
