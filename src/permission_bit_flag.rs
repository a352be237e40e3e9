//! The permission bits, one constant per permission.
use vstd::prelude::*;

verus! {

pub const CREATE_INSTANT_INVITE: u128 = 1u128 << 0;

pub const KICK_MEMBERS: u128 = 1u128 << 1;

pub const BAN_MEMBERS: u128 = 1u128 << 2;

pub const ADMINISTRATOR: u128 = 1u128 << 3;

pub const MANAGE_CHANNELS: u128 = 1u128 << 4;

pub const MANAGE_GUILD: u128 = 1u128 << 5;

pub const ADD_REACTIONS: u128 = 1u128 << 6;

pub const VIEW_AUDIT_LOG: u128 = 1u128 << 7;

pub const PRIORITY_SPEAKER: u128 = 1u128 << 8;

pub const STREAM: u128 = 1u128 << 9;

pub const VIEW_CHANNEL: u128 = 1u128 << 10;

pub const SEND_MESSAGES: u128 = 1u128 << 11;

pub const SEND_TTS_MESSAGES: u128 = 1u128 << 12;

pub const MANAGE_MESSAGES: u128 = 1u128 << 13;

pub const EMBED_LINKS: u128 = 1u128 << 14;

pub const ATTACH_FILES: u128 = 1u128 << 15;

pub const READ_MESSAGE_HISTORY: u128 = 1u128 << 16;

pub const MENTION_EVERYONE: u128 = 1u128 << 17;

pub const USE_EXTERNAL_EMOJIS: u128 = 1u128 << 18;

pub const VIEW_GUILD_INSIGHTS: u128 = 1u128 << 19;

pub const CONNECT: u128 = 1u128 << 20;

pub const SPEAK: u128 = 1u128 << 21;

pub const MUTE_MEMBERS: u128 = 1u128 << 22;

pub const DEAFEN_MEMBERS: u128 = 1u128 << 23;

pub const MOVE_MEMBERS: u128 = 1u128 << 24;

pub const USE_VAD: u128 = 1u128 << 25;

pub const CHANGE_NICKNAME: u128 = 1u128 << 26;

pub const MANAGE_NICKNAMES: u128 = 1u128 << 27;

pub const MANAGE_ROLES: u128 = 1u128 << 28;

pub const MANAGE_WEBHOOKS: u128 = 1u128 << 29;

pub const MANAGE_GUILD_EXPRESSIONS: u128 = 1u128 << 30;

pub const USE_APPLICATION_COMMANDS: u128 = 1u128 << 31;

pub const REQUEST_TO_SPEAK: u128 = 1u128 << 32;

pub const MANAGE_EVENTS: u128 = 1u128 << 33;

pub const MANAGE_THREADS: u128 = 1u128 << 34;

pub const CREATE_PUBLIC_THREADS: u128 = 1u128 << 35;

pub const CREATE_PRIVATE_THREADS: u128 = 1u128 << 36;

pub const USE_EXTERNAL_STICKERS: u128 = 1u128 << 37;

pub const SEND_MESSAGES_IN_THREADS: u128 = 1u128 << 38;

pub const USE_EMBEDDED_ACTIVITIES: u128 = 1u128 << 39;

pub const MODERATE_MEMBERS: u128 = 1u128 << 40;

pub const VIEW_CREATOR_MONETIZATION_ANALYTICS: u128 = 1u128 << 41;

pub const USE_SOUNDBOARD: u128 = 1u128 << 42;

pub const CREATE_GUILD_EXPRESSIONS: u128 = 1u128 << 43;

pub const CREATE_EVENTS: u128 = 1u128 << 44;

pub const USE_EXTERNAL_SOUNDS: u128 = 1u128 << 45;

pub const SEND_VOICE_MESSAGES: u128 = 1u128 << 46;

pub const SEND_POLLS: u128 = 1u128 << 49;

pub const USE_EXTERNAL_APPS: u128 = 1u128 << 50;

} // verus!
