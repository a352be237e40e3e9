//! The signed-in account and other users, as the REST layer returns them.
use vstd::prelude::*;
use crate::json::{
    JsonValue, field, u64_of, str_of, bool_of, opt_str_of, opt_u64_of, string_list_of, string_list_ok, decode_strings,
};

verus! {

/// The signed-in account.
#[derive(Debug)]
pub struct Me {
    pub id: String,
    pub username: String,
    pub avatar: String,
    pub discriminator: String,
    pub public_flags: u64,
    pub premium_type: u64,
    pub flags: u64,
    pub banner: Option<String>,
    pub accent_color: Option<String>,
    pub global_name: Option<String>,
    pub avatar_decoration_data: Option<String>,
    pub banner_color: Option<String>,
    pub mfa_enabled: bool,
    pub locale: String,
    pub email: String,
    pub verified: bool,
    pub phone: Option<String>,
    pub nsfw_allowed: bool,
    pub linked_users: Vec<String>,
    pub bio: String,
    pub authenticator_types: Vec<String>,
}

/// A user; `extra_info` is there when the object carried a premium type.
#[derive(Debug)]
pub struct User {
    pub id: String,
    pub username: String,
    pub avatar: String,
    pub discriminator: String,
    pub public_flags: u64,
    pub extra_info: Option<ExtraInfo>,
}

/// Details that only some user objects carry.
#[derive(Debug)]
pub struct ExtraInfo {
    pub premium_type: u64,
    pub flags: u64,
    pub banner: Option<String>,
    pub accent_color: Option<u64>,
    pub banner_color: Option<String>,
}

/// `m` is the account that the JSON object `v` describes.
pub open spec fn me_of(v: JsonValue, m: Me) -> bool {
    &&& str_of(field(v, "id"@)) == Some(m.id)
    &&& str_of(field(v, "username"@)) == Some(m.username)
    &&& str_of(field(v, "avatar"@)) == Some(m.avatar)
    &&& str_of(field(v, "discriminator"@)) == Some(m.discriminator)
    &&& u64_of(field(v, "public_flags"@)) == Some(m.public_flags)
    &&& u64_of(field(v, "premium_type"@)) == Some(m.premium_type)
    &&& u64_of(field(v, "flags"@)) == Some(m.flags)
    &&& opt_str_of(field(v, "banner"@)) == Some(m.banner)
    &&& opt_str_of(field(v, "accent_color"@)) == Some(m.accent_color)
    &&& opt_str_of(field(v, "global_name"@)) == Some(m.global_name)
    &&& opt_str_of(field(v, "avatar_decoration_data"@)) == Some(m.avatar_decoration_data)
    &&& opt_str_of(field(v, "banner_color"@)) == Some(m.banner_color)
    &&& bool_of(field(v, "mfa_enabled"@)) == Some(m.mfa_enabled)
    &&& str_of(field(v, "locale"@)) == Some(m.locale)
    &&& str_of(field(v, "email"@)) == Some(m.email)
    &&& bool_of(field(v, "verified"@)) == Some(m.verified)
    &&& opt_str_of(field(v, "phone"@)) == Some(m.phone)
    &&& bool_of(field(v, "nsfw_allowed"@)) == Some(m.nsfw_allowed)
    &&& string_list_of(field(v, "linked_users"@), m.linked_users@)
    &&& str_of(field(v, "bio"@)) == Some(m.bio)
    &&& string_list_of(field(v, "authenticator_types"@), m.authenticator_types@)
}

pub open spec fn me_ok(v: JsonValue) -> bool {
    &&& str_of(field(v, "id"@)) is Some
    &&& str_of(field(v, "username"@)) is Some
    &&& str_of(field(v, "avatar"@)) is Some
    &&& str_of(field(v, "discriminator"@)) is Some
    &&& u64_of(field(v, "public_flags"@)) is Some
    &&& u64_of(field(v, "premium_type"@)) is Some
    &&& u64_of(field(v, "flags"@)) is Some
    &&& opt_str_of(field(v, "banner"@)) is Some
    &&& opt_str_of(field(v, "accent_color"@)) is Some
    &&& opt_str_of(field(v, "global_name"@)) is Some
    &&& opt_str_of(field(v, "avatar_decoration_data"@)) is Some
    &&& opt_str_of(field(v, "banner_color"@)) is Some
    &&& bool_of(field(v, "mfa_enabled"@)) is Some
    &&& str_of(field(v, "locale"@)) is Some
    &&& str_of(field(v, "email"@)) is Some
    &&& bool_of(field(v, "verified"@)) is Some
    &&& opt_str_of(field(v, "phone"@)) is Some
    &&& bool_of(field(v, "nsfw_allowed"@)) is Some
    &&& string_list_ok(field(v, "linked_users"@))
    &&& str_of(field(v, "bio"@)) is Some
    &&& string_list_ok(field(v, "authenticator_types"@))
}

/// The user that the JSON object `v` describes: the extra details are
/// there exactly when `premium_type` is.
pub open spec fn user_of(v: JsonValue) -> Option<User> {
    match (
        str_of(field(v, "id"@)),
        str_of(field(v, "username"@)),
        str_of(field(v, "avatar"@)),
        str_of(field(v, "discriminator"@)),
        u64_of(field(v, "public_flags"@)),
        opt_u64_of(field(v, "premium_type"@)),
        u64_of(field(v, "flags"@)),
        opt_str_of(field(v, "banner"@)),
        opt_u64_of(field(v, "accent_color"@)),
        opt_str_of(field(v, "banner_color"@)),
    ) {
        (Some(id), Some(username), Some(avatar), Some(discriminator), Some(public_flags), Some(premium_type), Some(flags), Some(banner), Some(accent_color), Some(banner_color)) => Some(
            User {
                id,
                username,
                avatar,
                discriminator,
                public_flags,
                extra_info: match premium_type {
                    Some(p) => Some(ExtraInfo { premium_type: p, flags, banner, accent_color, banner_color }),
                    None => None,
                },
            },
        ),
        _ => None,
    }
}

impl Me {
    /// Reads the signed-in account from a JSON object.
    pub fn from_json(v: &JsonValue) -> (r: Option<Me>)
        ensures
            match r {
                Some(m) => me_of(*v, m),
                None => !me_ok(*v),
            },
    {
        let id = match v.get_string("id") {
            Some(x) => x,
            None => return None,
        };
        let username = match v.get_string("username") {
            Some(x) => x,
            None => return None,
        };
        let avatar = match v.get_string("avatar") {
            Some(x) => x,
            None => return None,
        };
        let discriminator = match v.get_string("discriminator") {
            Some(x) => x,
            None => return None,
        };
        let public_flags = match v.get_u64("public_flags") {
            Some(x) => x,
            None => return None,
        };
        let premium_type = match v.get_u64("premium_type") {
            Some(x) => x,
            None => return None,
        };
        let flags = match v.get_u64("flags") {
            Some(x) => x,
            None => return None,
        };
        let banner = match v.get_opt_string("banner") {
            Some(x) => x,
            None => return None,
        };
        let accent_color = match v.get_opt_string("accent_color") {
            Some(x) => x,
            None => return None,
        };
        let global_name = match v.get_opt_string("global_name") {
            Some(x) => x,
            None => return None,
        };
        let avatar_decoration_data = match v.get_opt_string("avatar_decoration_data") {
            Some(x) => x,
            None => return None,
        };
        let banner_color = match v.get_opt_string("banner_color") {
            Some(x) => x,
            None => return None,
        };
        let mfa_enabled = match v.get_bool("mfa_enabled") {
            Some(x) => x,
            None => return None,
        };
        let locale = match v.get_string("locale") {
            Some(x) => x,
            None => return None,
        };
        let email = match v.get_string("email") {
            Some(x) => x,
            None => return None,
        };
        let verified = match v.get_bool("verified") {
            Some(x) => x,
            None => return None,
        };
        let phone = match v.get_opt_string("phone") {
            Some(x) => x,
            None => return None,
        };
        let nsfw_allowed = match v.get_bool("nsfw_allowed") {
            Some(x) => x,
            None => return None,
        };
        let linked_users = match decode_strings(v, "linked_users") {
            Some(x) => x,
            None => return None,
        };
        let bio = match v.get_string("bio") {
            Some(x) => x,
            None => return None,
        };
        let authenticator_types = match decode_strings(v, "authenticator_types") {
            Some(x) => x,
            None => return None,
        };
        Some(Me { id, username, avatar, discriminator, public_flags, premium_type, flags, banner, accent_color, global_name, avatar_decoration_data, banner_color, mfa_enabled, locale, email, verified, phone, nsfw_allowed, linked_users, bio, authenticator_types })
    }

    pub fn id(&self) -> (r: &String)
        ensures
            *r == self.id,
    {
        &self.id
    }

    pub fn username(&self) -> (r: &String)
        ensures
            *r == self.username,
    {
        &self.username
    }

    pub fn avatar(&self) -> (r: &String)
        ensures
            *r == self.avatar,
    {
        &self.avatar
    }

    pub fn discriminator(&self) -> (r: &String)
        ensures
            *r == self.discriminator,
    {
        &self.discriminator
    }

    pub fn public_flags(&self) -> (r: u64)
        ensures
            r == self.public_flags,
    {
        self.public_flags
    }

    pub fn premium_type(&self) -> (r: u64)
        ensures
            r == self.premium_type,
    {
        self.premium_type
    }

    pub fn flags(&self) -> (r: u64)
        ensures
            r == self.flags,
    {
        self.flags
    }

    pub fn banner(&self) -> (r: &Option<String>)
        ensures
            *r == self.banner,
    {
        &self.banner
    }

    pub fn accent_color(&self) -> (r: &Option<String>)
        ensures
            *r == self.accent_color,
    {
        &self.accent_color
    }

    pub fn global_name(&self) -> (r: &Option<String>)
        ensures
            *r == self.global_name,
    {
        &self.global_name
    }

    pub fn avatar_decoration_data(&self) -> (r: &Option<String>)
        ensures
            *r == self.avatar_decoration_data,
    {
        &self.avatar_decoration_data
    }

    pub fn banner_color(&self) -> (r: &Option<String>)
        ensures
            *r == self.banner_color,
    {
        &self.banner_color
    }

    pub fn mfa_enabled(&self) -> (r: bool)
        ensures
            r == self.mfa_enabled,
    {
        self.mfa_enabled
    }

    pub fn locale(&self) -> (r: &String)
        ensures
            *r == self.locale,
    {
        &self.locale
    }

    pub fn email(&self) -> (r: &String)
        ensures
            *r == self.email,
    {
        &self.email
    }

    pub fn verified(&self) -> (r: bool)
        ensures
            r == self.verified,
    {
        self.verified
    }

    pub fn phone(&self) -> (r: &Option<String>)
        ensures
            *r == self.phone,
    {
        &self.phone
    }

    pub fn nsfw_allowed(&self) -> (r: bool)
        ensures
            r == self.nsfw_allowed,
    {
        self.nsfw_allowed
    }

    pub fn linked_users(&self) -> (r: &Vec<String>)
        ensures
            *r == self.linked_users,
    {
        &self.linked_users
    }

    pub fn bio(&self) -> (r: &String)
        ensures
            *r == self.bio,
    {
        &self.bio
    }

    pub fn authenticator_types(&self) -> (r: &Vec<String>)
        ensures
            *r == self.authenticator_types,
    {
        &self.authenticator_types
    }

}

impl User {
    /// Reads a user from a JSON object.
    pub fn from_json(v: &JsonValue) -> (r: Option<User>)
        ensures
            r == user_of(*v),
    {
        let id = match v.get_string("id") {
            Some(x) => x,
            None => return None,
        };
        let username = match v.get_string("username") {
            Some(x) => x,
            None => return None,
        };
        let avatar = match v.get_string("avatar") {
            Some(x) => x,
            None => return None,
        };
        let discriminator = match v.get_string("discriminator") {
            Some(x) => x,
            None => return None,
        };
        let public_flags = match v.get_u64("public_flags") {
            Some(x) => x,
            None => return None,
        };
        let premium_type = match v.get_opt_u64("premium_type") {
            Some(x) => x,
            None => return None,
        };
        let flags = match v.get_u64("flags") {
            Some(x) => x,
            None => return None,
        };
        let banner = match v.get_opt_string("banner") {
            Some(x) => x,
            None => return None,
        };
        let accent_color = match v.get_opt_u64("accent_color") {
            Some(x) => x,
            None => return None,
        };
        let banner_color = match v.get_opt_string("banner_color") {
            Some(x) => x,
            None => return None,
        };
        let extra_info = match premium_type {
            Some(p) => Some(ExtraInfo { premium_type: p, flags, banner, accent_color, banner_color }),
            None => None,
        };
        Some(User { id, username, avatar, discriminator, public_flags, extra_info })
    }

    pub fn id(&self) -> (r: &String)
        ensures
            *r == self.id,
    {
        &self.id
    }

    pub fn username(&self) -> (r: &String)
        ensures
            *r == self.username,
    {
        &self.username
    }

    pub fn avatar(&self) -> (r: &String)
        ensures
            *r == self.avatar,
    {
        &self.avatar
    }

    pub fn discriminator(&self) -> (r: &String)
        ensures
            *r == self.discriminator,
    {
        &self.discriminator
    }

    pub fn public_flags(&self) -> (r: u64)
        ensures
            r == self.public_flags,
    {
        self.public_flags
    }

    pub fn extra_info(&self) -> (r: &Option<ExtraInfo>)
        ensures
            *r == self.extra_info,
    {
        &self.extra_info
    }

    pub fn set_extra_info(&mut self, extra_info: Option<ExtraInfo>)
        ensures
            final(self).extra_info == extra_info,
            final(self).id == old(self).id,
            final(self).username == old(self).username,
            final(self).avatar == old(self).avatar,
            final(self).discriminator == old(self).discriminator,
            final(self).public_flags == old(self).public_flags,
    {
        self.extra_info = extra_info;
    }
}

impl ExtraInfo {
    pub fn premium_type(&self) -> (r: u64)
        ensures
            r == self.premium_type,
    {
        self.premium_type
    }

    pub fn flags(&self) -> (r: u64)
        ensures
            r == self.flags,
    {
        self.flags
    }

    pub fn banner(&self) -> (r: &Option<String>)
        ensures
            *r == self.banner,
    {
        &self.banner
    }

    pub fn accent_color(&self) -> (r: &Option<u64>)
        ensures
            *r == self.accent_color,
    {
        &self.accent_color
    }

    pub fn banner_color(&self) -> (r: &Option<String>)
        ensures
            *r == self.banner_color,
    {
        &self.banner_color
    }

}

} // verus!
