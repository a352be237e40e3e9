//! The events that the gateway dispatches, keyed by their type tag.
use vstd::prelude::*;
use crate::json::{
    JsonValue, same_text, field, u64_of, str_of, opt_u64_of, list_of, list_ok, opt_list_of, opt_list_ok, string_list_of,
    string_list_ok, decode_strings, lemma_opt_list_of_unique, lemma_list_of_unique, lemma_string_list_unique,
};
use crate::message::{
    Message, MessageAttachment, MessageComponent, MessageEmbed, message_of, message_ok, embed_of, same_message,
    lemma_message_of_unique, lemma_same_message_reflexive,
    component_of, attachment_of, decode_opt_embeds, decode_opt_components, decode_opt_attachments,
};
use crate::model::{Snowflake, snowflake_of, get_snowflake};
use crate::channel::{Channel, channel_of, channel_ok, same_channel, lemma_channel_unique};
use crate::guild::{GuildMemberData, opt_member_field_of, opt_member_field_ok, get_opt_member, same_opt_member, lemma_opt_member_field_unique};
use crate::user::{
    GatewayUserData, RelationshipAddEvent, RelationshipRemoveEvent, gateway_user_of, relationship_add_of,
    relationship_remove_of,
};
use crate::voice::{UserVoiceState, voice_state_of, decode_voice_states};

verus! {

/// An event that the gateway dispatched. Variants without fields are events
/// that are acknowledged but whose payload is not modelled.
#[derive(Debug)]
pub enum DispatchedEvent {
    /// Message was created
    MessageCreate {
        message: Message,
    },
    /// Message was edited
    MessageUpdate {
        message_id: Snowflake,
        channel_id: Snowflake,
        guild_id: Snowflake,
        embeds: Option<Vec<MessageEmbed>>,
        components: Option<Vec<MessageComponent>>,
        attachments: Option<Vec<MessageAttachment>>,
    },
    /// Contains the initial state information
    Ready {
        user: GatewayUserData,
    },
    /// Defines the heartbeat interval
    Hello {},
    /// Response to Resume
    Resumed {},
    /// Server is going away, client should reconnect to gateway and resume
    Reconnect {},
    /// Failure response to Identify or Resume or invalid active session
    InvalidSession {},
    /// Application command permission was updated
    ApplicationCommandPermissionsUpdate {},
    /// Auto Moderation rule was created
    AutoModerationRuleCreate {},
    /// Auto Moderation rule was updated
    AutoModerationRuleUpdate {},
    /// Auto Moderation rule was deleted
    AutoModerationRuleDelete {},
    /// Auto Moderation rule was triggered and an action was executed (e.g. a message was blocked)
    AutoModerationActionExecution {},
    /// New guild channel created
    ChannelCreate {},
    /// Channel was updated
    ChannelUpdate {
        channel: Channel,
        version: u64,
    },
    /// Channel was deleted
    ChannelDelete {
        channel: Channel,
        version: u64,
    },
    /// Message was pinned or unpinned
    ChannelPinsUpdate {},
    /// Thread created, also sent when being added to a private thread
    ThreadCreate {},
    /// Thread was updated
    ThreadUpdate {},
    /// Thread was deleted
    ThreadDelete {},
    /// Sent when gaining access to a channel, contains all active threads in that channel
    ThreadListSync {},
    /// Thread member for the current user was updated
    ThreadMemberUpdate {},
    /// Some user(s) were added to or removed from a thread
    ThreadMembersUpdate {},
    /// Entitlement was created
    EntitlementCreate {},
    /// Entitlement was updated or renewed
    EntitlementUpdate {},
    /// Entitlement was deleted
    EntitlementDelete {},
    /// Lazy-load for unavailable guild, guild became available, or user joined a new guild
    GuildCreate {},
    /// Guild was updated
    GuildUpdate {},
    /// Guild became unavailable, or user left/was removed from a guild
    GuildDelete {},
    /// A guild audit log entry was created
    GuildAuditLogEntryCreate {},
    /// User was banned from a guild
    GuildBanAdd {},
    /// User was unbanned from a guild
    GuildBanRemove {},
    /// Guild emojis were updated
    GuildEmojisUpdate {},
    /// Guild stickers were updated
    GuildStickersUpdate {},
    /// Guild integration was updated
    GuildIntegrationsUpdate {},
    /// New user joined a guild
    GuildMemberAdd {},
    /// User was removed from a guild
    GuildMemberRemove {},
    /// Guild member was updated
    GuildMemberUpdate {},
    /// Response to Request Guild Members
    GuildMembersChunk {},
    /// Guild role was created
    GuildRoleCreate {},
    /// Guild role was updated
    GuildRoleUpdate {},
    /// Guild role was deleted
    GuildRoleDelete {},
    /// Guild scheduled event was created
    GuildScheduledEventCreate {},
    /// Guild scheduled event was updated
    GuildScheduledEventUpdate {},
    /// Guild scheduled event was deleted
    GuildScheduledEventDelete {},
    /// User subscribed to a guild scheduled event
    GuildScheduledEventUserAdd {},
    /// User unsubscribed from a guild scheduled event
    GuildScheduledEventUserRemove {},
    /// Guild integration was created
    IntegrationCreate {},
    /// Guild integration was updated
    IntegrationUpdate {},
    /// Guild integration was deleted
    IntegrationDelete {},
    /// User used an interaction, such as an Application Command
    InteractionCreate {},
    /// Invite to a channel was created
    InviteCreate {},
    /// Invite to a channel was deleted
    InviteDelete {},
    /// Message was deleted
    MessageDelete {},
    /// Multiple messages were deleted at once
    MessageDeleteBulk {},
    /// User reacted to a message
    MessageReactionAdd {},
    /// User removed a reaction from a message
    MessageReactionRemove {},
    /// All reactions were explicitly removed from a message
    MessageReactionRemoveAll {},
    /// All reactions for a given emoji were explicitly removed from a message
    MessageReactionRemoveEmoji {},
    /// User was updated
    PresenceUpdate {},
    /// Stage instance was created
    StageInstanceCreate {},
    /// Stage instance was updated
    StageInstanceUpdate {},
    /// Stage instance was deleted or closed
    StageInstanceDelete {},
    /// User started typing in a channel
    TypingStart {},
    /// Properties about the user changed
    UserUpdate {},
    /// Someone joined, left, or moved a voice channel
    VoiceStateUpdate {
        new_state: UserVoiceState,
        guild_id: Snowflake,
        member: Option<GuildMemberData>,
    },
    /// Guild's voice server was updated
    VoiceServerUpdate {},
    /// Guild channel webhook was created, updated, or deleted
    WebhooksUpdate {},
    /// User voted on a poll
    MessagePollVoteAdd {
        answer_id: u16,
        channel_id: Snowflake,
        guild_id: Snowflake,
        message_id: Snowflake,
        user_id: Snowflake,
    },
    /// User removed a vote on a poll
    MessagePollVoteRemove {},
    /// A call has been created in the user's dms somewhere. (user accounts only)
    CallCreate {
        channel_id: Snowflake,
        message_id: Snowflake,
        region: String,
        ringing_user_ids: Vec<String>,
        user_voice_states: Vec<UserVoiceState>,
    },
    /// A friend request has been sent to or from the user (user accounts only).
    RelationshipAdd {
        relationship_add_event: RelationshipAddEvent,
    },
    /// A friend has been removed by the user or their friend. (user accounts only)
    RelationshipRemove {
        relationship_remove_event: RelationshipRemoveEvent,
    },
    /// Someone joined/left a vc in a server. (user accounts only)
    VoiceChannelStatusUpdate {},
    /// (user accounts only)
    ConversationSummaryUpdate {},
    /// (user accounts only)
    PassiveUpdateV2 {},
    /// Supplemental ready event (user accounts only)
    ReadySupplemental {},
    /// A message has been sent and acknowledged. (user accounts only)
    MessageAck {
        channel_id: Snowflake,
        flags: Option<u64>,
        last_viewed: Option<u64>,
        message_id: Snowflake,
        version: u64,
    },
    /// The user's settings changed (user accounts only).
    UserSettingsProtoUpdate {},
    /// A guild's command index changed (user accounts only).
    GuildApplicationCommandIndexUpdate {},
    /// Unread state of channels changed (user accounts only).
    ChannelUnreadUpdate {},
    /// The content inventory is stale (user accounts only).
    ContentInventoryInboxStale {},
    /// The user's audio settings changed (user accounts only).
    AudioSettingsUpdate {},
}

/// What a known type tag announces: an event whose payload is read from the
/// body, or an event without a modelled payload.
#[derive(Debug)]
pub enum TagKind {
    Plain(DispatchedEvent),
    MessageCreate,
    MessageUpdate,
    MessagePollVoteAdd,
    MessageAck,
    Ready,
    ChannelUpdate,
    ChannelDelete,
    VoiceStateUpdate,
    CallCreate,
    RelationshipAdd,
    RelationshipRemove,
}

/// What the type tag `t` announces, if it is one of the known tags.
pub open spec fn tag_kind(t: Seq<char>) -> Option<TagKind> {
    if t == "MESSAGE_CREATE"@ {
        Some(TagKind::MessageCreate)
    } else if t == "MESSAGE_UPDATE"@ {
        Some(TagKind::MessageUpdate)
    } else if t == "READY"@ {
        Some(TagKind::Ready)
    } else if t == "HELLO"@ {
        Some(TagKind::Plain(DispatchedEvent::Hello {}))
    } else if t == "RESUMED"@ {
        Some(TagKind::Plain(DispatchedEvent::Resumed {}))
    } else if t == "RECONNECT"@ {
        Some(TagKind::Plain(DispatchedEvent::Reconnect {}))
    } else if t == "INVALID_SESSION"@ {
        Some(TagKind::Plain(DispatchedEvent::InvalidSession {}))
    } else if t == "APPLICATION_COMMAND_PERMISSIONS_UPDATE"@ {
        Some(TagKind::Plain(DispatchedEvent::ApplicationCommandPermissionsUpdate {}))
    } else if t == "AUTO_MODERATION_RULE_CREATE"@ {
        Some(TagKind::Plain(DispatchedEvent::AutoModerationRuleCreate {}))
    } else if t == "AUTO_MODERATION_RULE_UPDATE"@ {
        Some(TagKind::Plain(DispatchedEvent::AutoModerationRuleUpdate {}))
    } else if t == "AUTO_MODERATION_RULE_DELETE"@ {
        Some(TagKind::Plain(DispatchedEvent::AutoModerationRuleDelete {}))
    } else if t == "AUTO_MODERATION_ACTION_EXECUTION"@ {
        Some(TagKind::Plain(DispatchedEvent::AutoModerationActionExecution {}))
    } else if t == "CHANNEL_CREATE"@ {
        Some(TagKind::Plain(DispatchedEvent::ChannelCreate {}))
    } else if t == "CHANNEL_UPDATE"@ {
        Some(TagKind::ChannelUpdate)
    } else if t == "CHANNEL_DELETE"@ {
        Some(TagKind::ChannelDelete)
    } else if t == "CHANNEL_PINS_UPDATE"@ {
        Some(TagKind::Plain(DispatchedEvent::ChannelPinsUpdate {}))
    } else if t == "THREAD_CREATE"@ {
        Some(TagKind::Plain(DispatchedEvent::ThreadCreate {}))
    } else if t == "THREAD_UPDATE"@ {
        Some(TagKind::Plain(DispatchedEvent::ThreadUpdate {}))
    } else if t == "THREAD_DELETE"@ {
        Some(TagKind::Plain(DispatchedEvent::ThreadDelete {}))
    } else if t == "THREAD_LIST_SYNC"@ {
        Some(TagKind::Plain(DispatchedEvent::ThreadListSync {}))
    } else if t == "THREAD_MEMBER_UPDATE"@ {
        Some(TagKind::Plain(DispatchedEvent::ThreadMemberUpdate {}))
    } else if t == "THREAD_MEMBERS_UPDATE"@ {
        Some(TagKind::Plain(DispatchedEvent::ThreadMembersUpdate {}))
    } else if t == "ENTITLEMENT_CREATE"@ {
        Some(TagKind::Plain(DispatchedEvent::EntitlementCreate {}))
    } else if t == "ENTITLEMENT_UPDATE"@ {
        Some(TagKind::Plain(DispatchedEvent::EntitlementUpdate {}))
    } else if t == "ENTITLEMENT_DELETE"@ {
        Some(TagKind::Plain(DispatchedEvent::EntitlementDelete {}))
    } else if t == "GUILD_CREATE"@ {
        Some(TagKind::Plain(DispatchedEvent::GuildCreate {}))
    } else if t == "GUILD_UPDATE"@ {
        Some(TagKind::Plain(DispatchedEvent::GuildUpdate {}))
    } else if t == "GUILD_DELETE"@ {
        Some(TagKind::Plain(DispatchedEvent::GuildDelete {}))
    } else if t == "GUILD_AUDIT_LOG_ENTRY_CREATE"@ {
        Some(TagKind::Plain(DispatchedEvent::GuildAuditLogEntryCreate {}))
    } else if t == "GUILD_BAN_ADD"@ {
        Some(TagKind::Plain(DispatchedEvent::GuildBanAdd {}))
    } else if t == "GUILD_BAN_REMOVE"@ {
        Some(TagKind::Plain(DispatchedEvent::GuildBanRemove {}))
    } else if t == "GUILD_EMOJIS_UPDATE"@ {
        Some(TagKind::Plain(DispatchedEvent::GuildEmojisUpdate {}))
    } else if t == "GUILD_STICKERS_UPDATE"@ {
        Some(TagKind::Plain(DispatchedEvent::GuildStickersUpdate {}))
    } else if t == "GUILD_INTEGRATIONS_UPDATE"@ {
        Some(TagKind::Plain(DispatchedEvent::GuildIntegrationsUpdate {}))
    } else if t == "GUILD_MEMBER_ADD"@ {
        Some(TagKind::Plain(DispatchedEvent::GuildMemberAdd {}))
    } else if t == "GUILD_MEMBER_REMOVE"@ {
        Some(TagKind::Plain(DispatchedEvent::GuildMemberRemove {}))
    } else if t == "GUILD_MEMBER_UPDATE"@ {
        Some(TagKind::Plain(DispatchedEvent::GuildMemberUpdate {}))
    } else if t == "GUILD_MEMBERS_CHUNK"@ {
        Some(TagKind::Plain(DispatchedEvent::GuildMembersChunk {}))
    } else if t == "GUILD_ROLE_CREATE"@ {
        Some(TagKind::Plain(DispatchedEvent::GuildRoleCreate {}))
    } else if t == "GUILD_ROLE_UPDATE"@ {
        Some(TagKind::Plain(DispatchedEvent::GuildRoleUpdate {}))
    } else if t == "GUILD_ROLE_DELETE"@ {
        Some(TagKind::Plain(DispatchedEvent::GuildRoleDelete {}))
    } else if t == "GUILD_SCHEDULED_EVENT_CREATE"@ {
        Some(TagKind::Plain(DispatchedEvent::GuildScheduledEventCreate {}))
    } else if t == "GUILD_SCHEDULED_EVENT_UPDATE"@ {
        Some(TagKind::Plain(DispatchedEvent::GuildScheduledEventUpdate {}))
    } else if t == "GUILD_SCHEDULED_EVENT_DELETE"@ {
        Some(TagKind::Plain(DispatchedEvent::GuildScheduledEventDelete {}))
    } else if t == "GUILD_SCHEDULED_EVENT_USER_ADD"@ {
        Some(TagKind::Plain(DispatchedEvent::GuildScheduledEventUserAdd {}))
    } else if t == "GUILD_SCHEDULED_EVENT_USER_REMOVE"@ {
        Some(TagKind::Plain(DispatchedEvent::GuildScheduledEventUserRemove {}))
    } else if t == "INTEGRATION_CREATE"@ {
        Some(TagKind::Plain(DispatchedEvent::IntegrationCreate {}))
    } else if t == "INTEGRATION_UPDATE"@ {
        Some(TagKind::Plain(DispatchedEvent::IntegrationUpdate {}))
    } else if t == "INTEGRATION_DELETE"@ {
        Some(TagKind::Plain(DispatchedEvent::IntegrationDelete {}))
    } else if t == "INTERACTION_CREATE"@ {
        Some(TagKind::Plain(DispatchedEvent::InteractionCreate {}))
    } else if t == "INVITE_CREATE"@ {
        Some(TagKind::Plain(DispatchedEvent::InviteCreate {}))
    } else if t == "INVITE_DELETE"@ {
        Some(TagKind::Plain(DispatchedEvent::InviteDelete {}))
    } else if t == "MESSAGE_DELETE"@ {
        Some(TagKind::Plain(DispatchedEvent::MessageDelete {}))
    } else if t == "MESSAGE_DELETE_BULK"@ {
        Some(TagKind::Plain(DispatchedEvent::MessageDeleteBulk {}))
    } else if t == "MESSAGE_REACTION_ADD"@ {
        Some(TagKind::Plain(DispatchedEvent::MessageReactionAdd {}))
    } else if t == "MESSAGE_REACTION_REMOVE"@ {
        Some(TagKind::Plain(DispatchedEvent::MessageReactionRemove {}))
    } else if t == "MESSAGE_REACTION_REMOVE_ALL"@ {
        Some(TagKind::Plain(DispatchedEvent::MessageReactionRemoveAll {}))
    } else if t == "MESSAGE_REACTION_REMOVE_EMOJI"@ {
        Some(TagKind::Plain(DispatchedEvent::MessageReactionRemoveEmoji {}))
    } else if t == "PRESENCE_UPDATE"@ {
        Some(TagKind::Plain(DispatchedEvent::PresenceUpdate {}))
    } else if t == "STAGE_INSTANCE_CREATE"@ {
        Some(TagKind::Plain(DispatchedEvent::StageInstanceCreate {}))
    } else if t == "STAGE_INSTANCE_UPDATE"@ {
        Some(TagKind::Plain(DispatchedEvent::StageInstanceUpdate {}))
    } else if t == "STAGE_INSTANCE_DELETE"@ {
        Some(TagKind::Plain(DispatchedEvent::StageInstanceDelete {}))
    } else if t == "TYPING_START"@ {
        Some(TagKind::Plain(DispatchedEvent::TypingStart {}))
    } else if t == "USER_UPDATE"@ {
        Some(TagKind::Plain(DispatchedEvent::UserUpdate {}))
    } else if t == "VOICE_STATE_UPDATE"@ {
        Some(TagKind::VoiceStateUpdate)
    } else if t == "VOICE_SERVER_UPDATE"@ {
        Some(TagKind::Plain(DispatchedEvent::VoiceServerUpdate {}))
    } else if t == "WEBHOOKS_UPDATE"@ {
        Some(TagKind::Plain(DispatchedEvent::WebhooksUpdate {}))
    } else if t == "MESSAGE_POLL_VOTE_ADD"@ {
        Some(TagKind::MessagePollVoteAdd)
    } else if t == "MESSAGE_POLL_VOTE_REMOVE"@ {
        Some(TagKind::Plain(DispatchedEvent::MessagePollVoteRemove {}))
    } else if t == "CALL_CREATE"@ {
        Some(TagKind::CallCreate)
    } else if t == "RELATIONSHIP_ADD"@ {
        Some(TagKind::RelationshipAdd)
    } else if t == "RELATIONSHIP_REMOVE"@ {
        Some(TagKind::RelationshipRemove)
    } else if t == "VOICE_CHANNEL_STATUS_UPDATE"@ {
        Some(TagKind::Plain(DispatchedEvent::VoiceChannelStatusUpdate {}))
    } else if t == "CONVERSATION_SUMMARY_UPDATE"@ {
        Some(TagKind::Plain(DispatchedEvent::ConversationSummaryUpdate {}))
    } else if t == "PASSIVE_UPDATE_V2"@ {
        Some(TagKind::Plain(DispatchedEvent::PassiveUpdateV2 {}))
    } else if t == "READY_SUPPLEMENTAL"@ {
        Some(TagKind::Plain(DispatchedEvent::ReadySupplemental {}))
    } else if t == "MESSAGE_ACK"@ {
        Some(TagKind::MessageAck)
    } else if t == "USER_SETTINGS_PROTO_UPDATE"@ {
        Some(TagKind::Plain(DispatchedEvent::UserSettingsProtoUpdate {}))
    } else if t == "GUILD_APPLICATION_COMMAND_INDEX_UPDATE"@ {
        Some(TagKind::Plain(DispatchedEvent::GuildApplicationCommandIndexUpdate {}))
    } else if t == "CHANNEL_UNREAD_UPDATE"@ {
        Some(TagKind::Plain(DispatchedEvent::ChannelUnreadUpdate {}))
    } else if t == "CONTENT_INVENTORY_INBOX_STALE"@ {
        Some(TagKind::Plain(DispatchedEvent::ContentInventoryInboxStale {}))
    } else if t == "AUDIO_SETTINGS_UPDATE"@ {
        Some(TagKind::Plain(DispatchedEvent::AudioSettingsUpdate {}))
    } else {
        None
    }
}

/// Looks up a type tag among the known ones.
pub fn tag_kind_of(t: &str) -> (r: Option<TagKind>)
    ensures
        r == tag_kind(t@),
{
    if same_text(t, "MESSAGE_CREATE") {
        Some(TagKind::MessageCreate)
    } else if same_text(t, "MESSAGE_UPDATE") {
        Some(TagKind::MessageUpdate)
    } else if same_text(t, "READY") {
        Some(TagKind::Ready)
    } else if same_text(t, "HELLO") {
        Some(TagKind::Plain(DispatchedEvent::Hello {}))
    } else if same_text(t, "RESUMED") {
        Some(TagKind::Plain(DispatchedEvent::Resumed {}))
    } else if same_text(t, "RECONNECT") {
        Some(TagKind::Plain(DispatchedEvent::Reconnect {}))
    } else if same_text(t, "INVALID_SESSION") {
        Some(TagKind::Plain(DispatchedEvent::InvalidSession {}))
    } else if same_text(t, "APPLICATION_COMMAND_PERMISSIONS_UPDATE") {
        Some(TagKind::Plain(DispatchedEvent::ApplicationCommandPermissionsUpdate {}))
    } else if same_text(t, "AUTO_MODERATION_RULE_CREATE") {
        Some(TagKind::Plain(DispatchedEvent::AutoModerationRuleCreate {}))
    } else if same_text(t, "AUTO_MODERATION_RULE_UPDATE") {
        Some(TagKind::Plain(DispatchedEvent::AutoModerationRuleUpdate {}))
    } else if same_text(t, "AUTO_MODERATION_RULE_DELETE") {
        Some(TagKind::Plain(DispatchedEvent::AutoModerationRuleDelete {}))
    } else if same_text(t, "AUTO_MODERATION_ACTION_EXECUTION") {
        Some(TagKind::Plain(DispatchedEvent::AutoModerationActionExecution {}))
    } else if same_text(t, "CHANNEL_CREATE") {
        Some(TagKind::Plain(DispatchedEvent::ChannelCreate {}))
    } else if same_text(t, "CHANNEL_UPDATE") {
        Some(TagKind::ChannelUpdate)
    } else if same_text(t, "CHANNEL_DELETE") {
        Some(TagKind::ChannelDelete)
    } else if same_text(t, "CHANNEL_PINS_UPDATE") {
        Some(TagKind::Plain(DispatchedEvent::ChannelPinsUpdate {}))
    } else if same_text(t, "THREAD_CREATE") {
        Some(TagKind::Plain(DispatchedEvent::ThreadCreate {}))
    } else if same_text(t, "THREAD_UPDATE") {
        Some(TagKind::Plain(DispatchedEvent::ThreadUpdate {}))
    } else if same_text(t, "THREAD_DELETE") {
        Some(TagKind::Plain(DispatchedEvent::ThreadDelete {}))
    } else if same_text(t, "THREAD_LIST_SYNC") {
        Some(TagKind::Plain(DispatchedEvent::ThreadListSync {}))
    } else if same_text(t, "THREAD_MEMBER_UPDATE") {
        Some(TagKind::Plain(DispatchedEvent::ThreadMemberUpdate {}))
    } else if same_text(t, "THREAD_MEMBERS_UPDATE") {
        Some(TagKind::Plain(DispatchedEvent::ThreadMembersUpdate {}))
    } else if same_text(t, "ENTITLEMENT_CREATE") {
        Some(TagKind::Plain(DispatchedEvent::EntitlementCreate {}))
    } else if same_text(t, "ENTITLEMENT_UPDATE") {
        Some(TagKind::Plain(DispatchedEvent::EntitlementUpdate {}))
    } else if same_text(t, "ENTITLEMENT_DELETE") {
        Some(TagKind::Plain(DispatchedEvent::EntitlementDelete {}))
    } else if same_text(t, "GUILD_CREATE") {
        Some(TagKind::Plain(DispatchedEvent::GuildCreate {}))
    } else if same_text(t, "GUILD_UPDATE") {
        Some(TagKind::Plain(DispatchedEvent::GuildUpdate {}))
    } else if same_text(t, "GUILD_DELETE") {
        Some(TagKind::Plain(DispatchedEvent::GuildDelete {}))
    } else if same_text(t, "GUILD_AUDIT_LOG_ENTRY_CREATE") {
        Some(TagKind::Plain(DispatchedEvent::GuildAuditLogEntryCreate {}))
    } else if same_text(t, "GUILD_BAN_ADD") {
        Some(TagKind::Plain(DispatchedEvent::GuildBanAdd {}))
    } else if same_text(t, "GUILD_BAN_REMOVE") {
        Some(TagKind::Plain(DispatchedEvent::GuildBanRemove {}))
    } else if same_text(t, "GUILD_EMOJIS_UPDATE") {
        Some(TagKind::Plain(DispatchedEvent::GuildEmojisUpdate {}))
    } else if same_text(t, "GUILD_STICKERS_UPDATE") {
        Some(TagKind::Plain(DispatchedEvent::GuildStickersUpdate {}))
    } else if same_text(t, "GUILD_INTEGRATIONS_UPDATE") {
        Some(TagKind::Plain(DispatchedEvent::GuildIntegrationsUpdate {}))
    } else if same_text(t, "GUILD_MEMBER_ADD") {
        Some(TagKind::Plain(DispatchedEvent::GuildMemberAdd {}))
    } else if same_text(t, "GUILD_MEMBER_REMOVE") {
        Some(TagKind::Plain(DispatchedEvent::GuildMemberRemove {}))
    } else if same_text(t, "GUILD_MEMBER_UPDATE") {
        Some(TagKind::Plain(DispatchedEvent::GuildMemberUpdate {}))
    } else if same_text(t, "GUILD_MEMBERS_CHUNK") {
        Some(TagKind::Plain(DispatchedEvent::GuildMembersChunk {}))
    } else if same_text(t, "GUILD_ROLE_CREATE") {
        Some(TagKind::Plain(DispatchedEvent::GuildRoleCreate {}))
    } else if same_text(t, "GUILD_ROLE_UPDATE") {
        Some(TagKind::Plain(DispatchedEvent::GuildRoleUpdate {}))
    } else if same_text(t, "GUILD_ROLE_DELETE") {
        Some(TagKind::Plain(DispatchedEvent::GuildRoleDelete {}))
    } else if same_text(t, "GUILD_SCHEDULED_EVENT_CREATE") {
        Some(TagKind::Plain(DispatchedEvent::GuildScheduledEventCreate {}))
    } else if same_text(t, "GUILD_SCHEDULED_EVENT_UPDATE") {
        Some(TagKind::Plain(DispatchedEvent::GuildScheduledEventUpdate {}))
    } else if same_text(t, "GUILD_SCHEDULED_EVENT_DELETE") {
        Some(TagKind::Plain(DispatchedEvent::GuildScheduledEventDelete {}))
    } else if same_text(t, "GUILD_SCHEDULED_EVENT_USER_ADD") {
        Some(TagKind::Plain(DispatchedEvent::GuildScheduledEventUserAdd {}))
    } else if same_text(t, "GUILD_SCHEDULED_EVENT_USER_REMOVE") {
        Some(TagKind::Plain(DispatchedEvent::GuildScheduledEventUserRemove {}))
    } else if same_text(t, "INTEGRATION_CREATE") {
        Some(TagKind::Plain(DispatchedEvent::IntegrationCreate {}))
    } else if same_text(t, "INTEGRATION_UPDATE") {
        Some(TagKind::Plain(DispatchedEvent::IntegrationUpdate {}))
    } else if same_text(t, "INTEGRATION_DELETE") {
        Some(TagKind::Plain(DispatchedEvent::IntegrationDelete {}))
    } else if same_text(t, "INTERACTION_CREATE") {
        Some(TagKind::Plain(DispatchedEvent::InteractionCreate {}))
    } else if same_text(t, "INVITE_CREATE") {
        Some(TagKind::Plain(DispatchedEvent::InviteCreate {}))
    } else if same_text(t, "INVITE_DELETE") {
        Some(TagKind::Plain(DispatchedEvent::InviteDelete {}))
    } else if same_text(t, "MESSAGE_DELETE") {
        Some(TagKind::Plain(DispatchedEvent::MessageDelete {}))
    } else if same_text(t, "MESSAGE_DELETE_BULK") {
        Some(TagKind::Plain(DispatchedEvent::MessageDeleteBulk {}))
    } else if same_text(t, "MESSAGE_REACTION_ADD") {
        Some(TagKind::Plain(DispatchedEvent::MessageReactionAdd {}))
    } else if same_text(t, "MESSAGE_REACTION_REMOVE") {
        Some(TagKind::Plain(DispatchedEvent::MessageReactionRemove {}))
    } else if same_text(t, "MESSAGE_REACTION_REMOVE_ALL") {
        Some(TagKind::Plain(DispatchedEvent::MessageReactionRemoveAll {}))
    } else if same_text(t, "MESSAGE_REACTION_REMOVE_EMOJI") {
        Some(TagKind::Plain(DispatchedEvent::MessageReactionRemoveEmoji {}))
    } else if same_text(t, "PRESENCE_UPDATE") {
        Some(TagKind::Plain(DispatchedEvent::PresenceUpdate {}))
    } else if same_text(t, "STAGE_INSTANCE_CREATE") {
        Some(TagKind::Plain(DispatchedEvent::StageInstanceCreate {}))
    } else if same_text(t, "STAGE_INSTANCE_UPDATE") {
        Some(TagKind::Plain(DispatchedEvent::StageInstanceUpdate {}))
    } else if same_text(t, "STAGE_INSTANCE_DELETE") {
        Some(TagKind::Plain(DispatchedEvent::StageInstanceDelete {}))
    } else if same_text(t, "TYPING_START") {
        Some(TagKind::Plain(DispatchedEvent::TypingStart {}))
    } else if same_text(t, "USER_UPDATE") {
        Some(TagKind::Plain(DispatchedEvent::UserUpdate {}))
    } else if same_text(t, "VOICE_STATE_UPDATE") {
        Some(TagKind::VoiceStateUpdate)
    } else if same_text(t, "VOICE_SERVER_UPDATE") {
        Some(TagKind::Plain(DispatchedEvent::VoiceServerUpdate {}))
    } else if same_text(t, "WEBHOOKS_UPDATE") {
        Some(TagKind::Plain(DispatchedEvent::WebhooksUpdate {}))
    } else if same_text(t, "MESSAGE_POLL_VOTE_ADD") {
        Some(TagKind::MessagePollVoteAdd)
    } else if same_text(t, "MESSAGE_POLL_VOTE_REMOVE") {
        Some(TagKind::Plain(DispatchedEvent::MessagePollVoteRemove {}))
    } else if same_text(t, "CALL_CREATE") {
        Some(TagKind::CallCreate)
    } else if same_text(t, "RELATIONSHIP_ADD") {
        Some(TagKind::RelationshipAdd)
    } else if same_text(t, "RELATIONSHIP_REMOVE") {
        Some(TagKind::RelationshipRemove)
    } else if same_text(t, "VOICE_CHANNEL_STATUS_UPDATE") {
        Some(TagKind::Plain(DispatchedEvent::VoiceChannelStatusUpdate {}))
    } else if same_text(t, "CONVERSATION_SUMMARY_UPDATE") {
        Some(TagKind::Plain(DispatchedEvent::ConversationSummaryUpdate {}))
    } else if same_text(t, "PASSIVE_UPDATE_V2") {
        Some(TagKind::Plain(DispatchedEvent::PassiveUpdateV2 {}))
    } else if same_text(t, "READY_SUPPLEMENTAL") {
        Some(TagKind::Plain(DispatchedEvent::ReadySupplemental {}))
    } else if same_text(t, "MESSAGE_ACK") {
        Some(TagKind::MessageAck)
    } else if same_text(t, "USER_SETTINGS_PROTO_UPDATE") {
        Some(TagKind::Plain(DispatchedEvent::UserSettingsProtoUpdate {}))
    } else if same_text(t, "GUILD_APPLICATION_COMMAND_INDEX_UPDATE") {
        Some(TagKind::Plain(DispatchedEvent::GuildApplicationCommandIndexUpdate {}))
    } else if same_text(t, "CHANNEL_UNREAD_UPDATE") {
        Some(TagKind::Plain(DispatchedEvent::ChannelUnreadUpdate {}))
    } else if same_text(t, "CONTENT_INVENTORY_INBOX_STALE") {
        Some(TagKind::Plain(DispatchedEvent::ContentInventoryInboxStale {}))
    } else if same_text(t, "AUDIO_SETTINGS_UPDATE") {
        Some(TagKind::Plain(DispatchedEvent::AudioSettingsUpdate {}))
    } else {
        None
    }
}

/// `e` is the event that the body `d` describes for what tag kind `k` announces.
pub open spec fn payload_of(k: TagKind, d: JsonValue, e: DispatchedEvent) -> bool {
    match k {
        TagKind::Plain(p) => e == p,
        TagKind::MessageCreate => e matches DispatchedEvent::MessageCreate { message } && message_of(d, message),
        TagKind::MessageUpdate => match e {
            DispatchedEvent::MessageUpdate { message_id, channel_id, guild_id, embeds, components, attachments } => {
                &&& snowflake_of(field(d, "id"@)) == Some(message_id)
                &&& snowflake_of(field(d, "channel_id"@)) == Some(channel_id)
                &&& snowflake_of(field(d, "guild_id"@)) == Some(guild_id)
                &&& opt_list_of(field(d, "embeds"@), embeds, |x: JsonValue| embed_of(x))
                &&& opt_list_of(field(d, "components"@), components, |x: JsonValue| component_of(x))
                &&& opt_list_of(field(d, "attachments"@), attachments, |x: JsonValue| attachment_of(x))
            },
            _ => false,
        },
        TagKind::MessagePollVoteAdd => match e {
            DispatchedEvent::MessagePollVoteAdd { answer_id, channel_id, guild_id, message_id, user_id } => {
                &&& u64_of(field(d, "answer_id"@)) == Some(answer_id as u64)
                &&& snowflake_of(field(d, "channel_id"@)) == Some(channel_id)
                &&& snowflake_of(field(d, "guild_id"@)) == Some(guild_id)
                &&& snowflake_of(field(d, "message_id"@)) == Some(message_id)
                &&& snowflake_of(field(d, "user_id"@)) == Some(user_id)
            },
            _ => false,
        },
        TagKind::MessageAck => match e {
            DispatchedEvent::MessageAck { channel_id, flags, last_viewed, message_id, version } => {
                &&& snowflake_of(field(d, "channel_id"@)) == Some(channel_id)
                &&& opt_u64_of(field(d, "flags"@)) == Some(flags)
                &&& opt_u64_of(field(d, "last_viewed"@)) == Some(last_viewed)
                &&& snowflake_of(field(d, "message_id"@)) == Some(message_id)
                &&& u64_of(field(d, "version"@)) == Some(version)
            },
            _ => false,
        },
        TagKind::Ready => match e {
            DispatchedEvent::Ready { user } => match field(d, "user"@) {
                Some(u) => gateway_user_of(u) == Some(user),
                None => false,
            },
            _ => false,
        },
        TagKind::ChannelUpdate => match e {
            DispatchedEvent::ChannelUpdate { channel, version } => channel_of(d, channel) && u64_of(field(d, "version"@))
                == Some(version),
            _ => false,
        },
        TagKind::ChannelDelete => match e {
            DispatchedEvent::ChannelDelete { channel, version } => channel_of(d, channel) && u64_of(field(d, "version"@))
                == Some(version),
            _ => false,
        },
        TagKind::VoiceStateUpdate => match e {
            DispatchedEvent::VoiceStateUpdate { new_state, guild_id, member } => {
                &&& voice_state_of(d) == Some(new_state)
                &&& snowflake_of(field(d, "guild_id"@)) == Some(guild_id)
                &&& opt_member_field_of(field(d, "member"@), member)
            },
            _ => false,
        },
        TagKind::CallCreate => match e {
            DispatchedEvent::CallCreate { channel_id, message_id, region, ringing_user_ids, user_voice_states } => {
                &&& snowflake_of(field(d, "channel_id"@)) == Some(channel_id)
                &&& snowflake_of(field(d, "message_id"@)) == Some(message_id)
                &&& str_of(field(d, "region"@)) == Some(region)
                &&& string_list_of(field(d, "ringing"@), ringing_user_ids@)
                &&& list_of(field(d, "voice_states"@), user_voice_states@, |x: JsonValue| voice_state_of(x))
            },
            _ => false,
        },
        TagKind::RelationshipAdd => match e {
            DispatchedEvent::RelationshipAdd { relationship_add_event } => relationship_add_of(d) == Some(
                relationship_add_event,
            ),
            _ => false,
        },
        TagKind::RelationshipRemove => match e {
            DispatchedEvent::RelationshipRemove { relationship_remove_event } => relationship_remove_of(d) == Some(
                relationship_remove_event,
            ),
            _ => false,
        },
    }
}

/// The body `d` has every field that tag kind `k` needs, each of the right kind.
pub open spec fn payload_ok(k: TagKind, d: JsonValue) -> bool {
    match k {
        TagKind::Plain(_) => true,
        TagKind::MessageCreate => message_ok(d),
        TagKind::MessageUpdate => {
            &&& snowflake_of(field(d, "id"@)) is Some
            &&& snowflake_of(field(d, "channel_id"@)) is Some
            &&& snowflake_of(field(d, "guild_id"@)) is Some
            &&& opt_list_ok(field(d, "embeds"@), |x: JsonValue| embed_of(x))
            &&& opt_list_ok(field(d, "components"@), |x: JsonValue| component_of(x))
            &&& opt_list_ok(field(d, "attachments"@), |x: JsonValue| attachment_of(x))
        },
        TagKind::MessagePollVoteAdd => {
            &&& u64_of(field(d, "answer_id"@)) matches Some(a) && a <= u16::MAX
            &&& snowflake_of(field(d, "channel_id"@)) is Some
            &&& snowflake_of(field(d, "guild_id"@)) is Some
            &&& snowflake_of(field(d, "message_id"@)) is Some
            &&& snowflake_of(field(d, "user_id"@)) is Some
        },
        TagKind::MessageAck => {
            &&& snowflake_of(field(d, "channel_id"@)) is Some
            &&& opt_u64_of(field(d, "flags"@)) is Some
            &&& opt_u64_of(field(d, "last_viewed"@)) is Some
            &&& snowflake_of(field(d, "message_id"@)) is Some
            &&& u64_of(field(d, "version"@)) is Some
        },
        TagKind::Ready => match field(d, "user"@) {
            Some(u) => gateway_user_of(u) is Some,
            None => false,
        },
        TagKind::ChannelUpdate => channel_ok(d) && u64_of(field(d, "version"@)) is Some,
        TagKind::ChannelDelete => channel_ok(d) && u64_of(field(d, "version"@)) is Some,
        TagKind::VoiceStateUpdate => {
            &&& voice_state_of(d) is Some
            &&& snowflake_of(field(d, "guild_id"@)) is Some
            &&& opt_member_field_ok(field(d, "member"@))
        },
        TagKind::CallCreate => {
            &&& snowflake_of(field(d, "channel_id"@)) is Some
            &&& snowflake_of(field(d, "message_id"@)) is Some
            &&& str_of(field(d, "region"@)) is Some
            &&& string_list_ok(field(d, "ringing"@))
            &&& list_ok(field(d, "voice_states"@), |x: JsonValue| voice_state_of(x))
        },
        TagKind::RelationshipAdd => relationship_add_of(d) is Some,
        TagKind::RelationshipRemove => relationship_remove_of(d) is Some,
    }
}

/// Two events agree field by field, lists by their contents.
pub open spec fn same_event(a: DispatchedEvent, b: DispatchedEvent) -> bool {
    match (a, b) {
        (DispatchedEvent::MessageCreate { message: x }, DispatchedEvent::MessageCreate { message: y }) =>
            same_message(x, y),
        (
            DispatchedEvent::MessageUpdate {
                message_id: i1,
                channel_id: c1,
                guild_id: g1,
                embeds: e1,
                components: k1,
                attachments: a1,
            },
            DispatchedEvent::MessageUpdate {
                message_id: i2,
                channel_id: c2,
                guild_id: g2,
                embeds: e2,
                components: k2,
                attachments: a2,
            },
        ) => {
            &&& i1 == i2 && c1 == c2 && g1 == g2
            &&& (e1 is Some <==> e2 is Some) && (e1 is Some ==> e1->Some_0@ == e2->Some_0@)
            &&& (k1 is Some <==> k2 is Some) && (k1 is Some ==> k1->Some_0@ == k2->Some_0@)
            &&& (a1 is Some <==> a2 is Some) && (a1 is Some ==> a1->Some_0@ == a2->Some_0@)
        },
        (
            DispatchedEvent::ChannelUpdate { channel: c1, version: v1 },
            DispatchedEvent::ChannelUpdate { channel: c2, version: v2 },
        ) => same_channel(c1, c2) && v1 == v2,
        (
            DispatchedEvent::ChannelDelete { channel: c1, version: v1 },
            DispatchedEvent::ChannelDelete { channel: c2, version: v2 },
        ) => same_channel(c1, c2) && v1 == v2,
        (
            DispatchedEvent::VoiceStateUpdate { new_state: s1, guild_id: g1, member: m1 },
            DispatchedEvent::VoiceStateUpdate { new_state: s2, guild_id: g2, member: m2 },
        ) => s1 == s2 && g1 == g2 && same_opt_member(m1, m2),
        (
            DispatchedEvent::CallCreate {
                channel_id: c1,
                message_id: i1,
                region: r1,
                ringing_user_ids: u1,
                user_voice_states: s1,
            },
            DispatchedEvent::CallCreate {
                channel_id: c2,
                message_id: i2,
                region: r2,
                ringing_user_ids: u2,
                user_voice_states: s2,
            },
        ) => c1 == c2 && i1 == i2 && r1 == r2 && u1@ == u2@ && s1@ == s2@,
        _ => a == b,
    }
}

/// A body describes at most one event for a given tag kind.
pub proof fn lemma_payload_of_unique(k: TagKind, d: JsonValue, a: DispatchedEvent, b: DispatchedEvent)
    requires
        payload_of(k, d, a),
        payload_of(k, d, b),
    ensures
        same_event(a, b),
{
    match k {
        TagKind::MessageCreate => {
            if let (DispatchedEvent::MessageCreate { message: x }, DispatchedEvent::MessageCreate { message: y }) = (a, b) {
                lemma_message_of_unique(d, x, y);
            }
        },
        TagKind::MessageUpdate => {
            if let (
                DispatchedEvent::MessageUpdate { embeds: e1, components: k1, attachments: a1, .. },
                DispatchedEvent::MessageUpdate { embeds: e2, components: k2, attachments: a2, .. },
            ) = (a, b) {
                lemma_opt_list_of_unique(field(d, "embeds"@), e1, e2, |x: JsonValue| embed_of(x));
                lemma_opt_list_of_unique(field(d, "components"@), k1, k2, |x: JsonValue| component_of(x));
                lemma_opt_list_of_unique(field(d, "attachments"@), a1, a2, |x: JsonValue| attachment_of(x));
            }
        },
        TagKind::ChannelUpdate => {
            if let (
                DispatchedEvent::ChannelUpdate { channel: c1, .. },
                DispatchedEvent::ChannelUpdate { channel: c2, .. },
            ) = (a, b) {
                lemma_channel_unique(d, c1, c2);
            }
        },
        TagKind::ChannelDelete => {
            if let (
                DispatchedEvent::ChannelDelete { channel: c1, .. },
                DispatchedEvent::ChannelDelete { channel: c2, .. },
            ) = (a, b) {
                lemma_channel_unique(d, c1, c2);
            }
        },
        TagKind::VoiceStateUpdate => {
            if let (
                DispatchedEvent::VoiceStateUpdate { member: m1, .. },
                DispatchedEvent::VoiceStateUpdate { member: m2, .. },
            ) = (a, b) {
                lemma_opt_member_field_unique(field(d, "member"@), m1, m2);
            }
        },
        TagKind::CallCreate => {
            if let (
                DispatchedEvent::CallCreate { ringing_user_ids: u1, user_voice_states: s1, .. },
                DispatchedEvent::CallCreate { ringing_user_ids: u2, user_voice_states: s2, .. },
            ) = (a, b) {
                lemma_string_list_unique(field(d, "ringing"@), u1@, u2@);
                lemma_list_of_unique(field(d, "voice_states"@), s1@, s2@, |x: JsonValue| voice_state_of(x));
            }
        },
        TagKind::Plain(p) => {
            if let DispatchedEvent::MessageCreate { message } = p {
                lemma_same_message_reflexive(message);
            }
        },
        _ => {},
    }
}

/// Reads the event that tag kind `k` announces from the body `d`.
pub fn decode_payload(k: TagKind, d: &JsonValue) -> (r: Option<DispatchedEvent>)
    ensures
        match r {
            Some(e) => payload_of(k, *d, e) && payload_ok(k, *d),
            None => !payload_ok(k, *d),
        },
{
    match k {
        TagKind::Plain(e) => Some(e),
        TagKind::MessageCreate => match Message::from_json(d) {
            Some(message) => Some(DispatchedEvent::MessageCreate { message }),
            None => None,
        },
        TagKind::MessageUpdate => {
            let message_id = match get_snowflake(d, "id") {
                Some(x) => x,
                None => return None,
            };
            let channel_id = match get_snowflake(d, "channel_id") {
                Some(x) => x,
                None => return None,
            };
            let guild_id = match get_snowflake(d, "guild_id") {
                Some(x) => x,
                None => return None,
            };
            let embeds = match decode_opt_embeds(d, "embeds") {
                Some(x) => x,
                None => return None,
            };
            let components = match decode_opt_components(d, "components") {
                Some(x) => x,
                None => return None,
            };
            let attachments = match decode_opt_attachments(d, "attachments") {
                Some(x) => x,
                None => return None,
            };
            Some(DispatchedEvent::MessageUpdate { message_id, channel_id, guild_id, embeds, components, attachments })
        },
        TagKind::MessagePollVoteAdd => {
            let answer_id = match d.get_u64("answer_id") {
                Some(x) => if x <= 65535 {
                    x as u16
                } else {
                    return None
                },
                None => return None,
            };
            let channel_id = match get_snowflake(d, "channel_id") {
                Some(x) => x,
                None => return None,
            };
            let guild_id = match get_snowflake(d, "guild_id") {
                Some(x) => x,
                None => return None,
            };
            let message_id = match get_snowflake(d, "message_id") {
                Some(x) => x,
                None => return None,
            };
            let user_id = match get_snowflake(d, "user_id") {
                Some(x) => x,
                None => return None,
            };
            Some(DispatchedEvent::MessagePollVoteAdd { answer_id, channel_id, guild_id, message_id, user_id })
        },
        TagKind::MessageAck => {
            let channel_id = match get_snowflake(d, "channel_id") {
                Some(x) => x,
                None => return None,
            };
            let flags = match d.get_opt_u64("flags") {
                Some(x) => x,
                None => return None,
            };
            let last_viewed = match d.get_opt_u64("last_viewed") {
                Some(x) => x,
                None => return None,
            };
            let message_id = match get_snowflake(d, "message_id") {
                Some(x) => x,
                None => return None,
            };
            let version = match d.get_u64("version") {
                Some(x) => x,
                None => return None,
            };
            Some(DispatchedEvent::MessageAck { channel_id, flags, last_viewed, message_id, version })
        },
        TagKind::Ready => match d.get("user") {
            Some(u) => match GatewayUserData::from_json(u) {
                Some(user) => Some(DispatchedEvent::Ready { user }),
                None => None,
            },
            None => None,
        },
        TagKind::ChannelUpdate => {
            let channel = match Channel::from_json(d) {
                Some(x) => x,
                None => return None,
            };
            let version = match d.get_u64("version") {
                Some(x) => x,
                None => return None,
            };
            Some(DispatchedEvent::ChannelUpdate { channel, version })
        },
        TagKind::ChannelDelete => {
            let channel = match Channel::from_json(d) {
                Some(x) => x,
                None => return None,
            };
            let version = match d.get_u64("version") {
                Some(x) => x,
                None => return None,
            };
            Some(DispatchedEvent::ChannelDelete { channel, version })
        },
        TagKind::VoiceStateUpdate => {
            let new_state = match UserVoiceState::from_json(d) {
                Some(x) => x,
                None => return None,
            };
            let guild_id = match get_snowflake(d, "guild_id") {
                Some(x) => x,
                None => return None,
            };
            let member = match get_opt_member(d, "member") {
                Some(x) => x,
                None => return None,
            };
            Some(DispatchedEvent::VoiceStateUpdate { new_state, guild_id, member })
        },
        TagKind::CallCreate => {
            let channel_id = match get_snowflake(d, "channel_id") {
                Some(x) => x,
                None => return None,
            };
            let message_id = match get_snowflake(d, "message_id") {
                Some(x) => x,
                None => return None,
            };
            let region = match d.get_string("region") {
                Some(x) => x,
                None => return None,
            };
            let ringing_user_ids = match decode_strings(d, "ringing") {
                Some(x) => x,
                None => return None,
            };
            let user_voice_states = match decode_voice_states(d, "voice_states") {
                Some(x) => x,
                None => return None,
            };
            Some(DispatchedEvent::CallCreate { channel_id, message_id, region, ringing_user_ids, user_voice_states })
        },
        TagKind::RelationshipAdd => match RelationshipAddEvent::from_json(d) {
            Some(relationship_add_event) => Some(DispatchedEvent::RelationshipAdd { relationship_add_event }),
            None => None,
        },
        TagKind::RelationshipRemove => match RelationshipRemoveEvent::from_json(d) {
            Some(relationship_remove_event) => Some(DispatchedEvent::RelationshipRemove { relationship_remove_event }),
            None => None,
        },
    }
}

} // verus!
