//! Permission sets and per-channel overwrites.
use vstd::prelude::*;
use crate::json::{JsonValue, field, u64_of, str_of};
use crate::model::{Snowflake, snowflake_of, get_snowflake};

verus! {

/// A set of permissions, one bit each (see `permission_bit_flag`).
#[derive(Debug, Clone, Copy, PartialEq, Eq, Structural)]
pub struct Permissions {
    pub bit_field: u128,
}

impl Permissions {
    pub fn from_bits(bit_field: u128) -> (r: Permissions)
        ensures
            r.bit_field == bit_field,
    {
        Permissions { bit_field }
    }

    /// Whether every bit of `permission_bit_flag` is granted.
    pub fn has_permission(&self, permission_bit_flag: u128) -> (r: bool)
        ensures
            r == (self.bit_field & permission_bit_flag == permission_bit_flag),
    {
        self.bit_field & permission_bit_flag == permission_bit_flag
    }
}

/// Whom an overwrite applies to.
#[derive(Debug, Clone, Copy, PartialEq, Eq, Structural)]
pub enum PermissionOverwriteType {
    Role,
    Member,
}

/// The overwrite target a number stands for: 0 a role, 1 a member.
pub open spec fn overwrite_type_of(f: Option<JsonValue>) -> Option<PermissionOverwriteType> {
    match u64_of(f) {
        Some(0) => Some(PermissionOverwriteType::Role),
        Some(1) => Some(PermissionOverwriteType::Member),
        _ => None,
    }
}

pub fn get_overwrite_type(v: &JsonValue, key: &str) -> (r: Option<PermissionOverwriteType>)
    ensures
        r == overwrite_type_of(field(*v, key@)),
{
    match v.get_u64(key) {
        Some(0) => Some(PermissionOverwriteType::Role),
        Some(1) => Some(PermissionOverwriteType::Member),
        _ => None,
    }
}

/// Permissions allowed and denied to a role or a member in one channel.
#[derive(Debug)]
pub struct PermissionOverwrite {
    pub id: Snowflake,
    /// Whom the overwrite applies to.
    pub kind: PermissionOverwriteType,
    /// The allowed bits, as the decimal text the platform sends.
    pub allow: String,
    /// The denied bits, as the decimal text the platform sends.
    pub deny: String,
}

/// What the JSON object `v` describes.
pub open spec fn overwrite_of(v: JsonValue) -> Option<PermissionOverwrite> {
    match (
        snowflake_of(field(v, "id"@)),
        overwrite_type_of(field(v, "type"@)),
        str_of(field(v, "allow"@)),
        str_of(field(v, "deny"@)),
    ) {
        (Some(id), Some(kind), Some(allow), Some(deny)) => Some(PermissionOverwrite { id, kind, allow, deny }),
        _ => None,
    }
}

impl PermissionOverwrite {
    /// Reads the value from a JSON object.
    pub fn from_json(v: &JsonValue) -> (r: Option<PermissionOverwrite>)
        ensures
            r == overwrite_of(*v),
    {
        let id = match get_snowflake(v, "id") {
            Some(x) => x,
            None => return None,
        };
        let kind = match get_overwrite_type(v, "type") {
            Some(x) => x,
            None => return None,
        };
        let allow = match v.get_string("allow") {
            Some(x) => x,
            None => return None,
        };
        let deny = match v.get_string("deny") {
            Some(x) => x,
            None => return None,
        };
        Some(PermissionOverwrite { id, kind, allow, deny })
    }
}

} // verus!
