//! The gateway's opcodes.
use vstd::prelude::*;

verus! {

/// The role of a frame in the gateway protocol.
#[derive(Debug, Clone, Copy, PartialEq, Eq, Structural)]
pub enum GatewayOpCode {
    /// Receive: an event was dispatched.
    Dispatch,
    /// Send and receive: keeps the connection alive.
    Heartbeat,
    /// Send: starts a new session during the handshake.
    Identify,
    /// Send: updates the client's presence.
    PresenceUpdate,
    /// Send: joins, leaves or moves between voice channels.
    VoiceStateUpdate,
    /// Send: resumes a session that was disconnected.
    Resume,
    /// Receive: the client should reconnect and resume.
    Reconnect,
    /// Send: asks for the offline members of a large guild.
    RequestGuildMembers,
    /// Receive: the session was invalidated.
    InvalidSession,
    /// Receive: sent after connecting, with the heartbeat interval.
    Hello,
    /// Receive: acknowledges a heartbeat.
    HeartbeatAck,
}

/// The opcode that the number `n` stands for.
pub open spec fn opcode_of(n: u64) -> Option<GatewayOpCode> {
    if n == 0 {
        Some(GatewayOpCode::Dispatch)
    } else if n == 1 {
        Some(GatewayOpCode::Heartbeat)
    } else if n == 2 {
        Some(GatewayOpCode::Identify)
    } else if n == 3 {
        Some(GatewayOpCode::PresenceUpdate)
    } else if n == 4 {
        Some(GatewayOpCode::VoiceStateUpdate)
    } else if n == 6 {
        Some(GatewayOpCode::Resume)
    } else if n == 7 {
        Some(GatewayOpCode::Reconnect)
    } else if n == 8 {
        Some(GatewayOpCode::RequestGuildMembers)
    } else if n == 9 {
        Some(GatewayOpCode::InvalidSession)
    } else if n == 10 {
        Some(GatewayOpCode::Hello)
    } else if n == 11 {
        Some(GatewayOpCode::HeartbeatAck)
    } else {
        None
    }
}

/// The number that stands for an opcode on the wire.
pub open spec fn opcode_number(op: GatewayOpCode) -> u64 {
    match op {
        GatewayOpCode::Dispatch => 0,
        GatewayOpCode::Heartbeat => 1,
        GatewayOpCode::Identify => 2,
        GatewayOpCode::PresenceUpdate => 3,
        GatewayOpCode::VoiceStateUpdate => 4,
        GatewayOpCode::Resume => 6,
        GatewayOpCode::Reconnect => 7,
        GatewayOpCode::RequestGuildMembers => 8,
        GatewayOpCode::InvalidSession => 9,
        GatewayOpCode::Hello => 10,
        GatewayOpCode::HeartbeatAck => 11,
    }
}

impl GatewayOpCode {
    /// The opcode that a number stands for, if any.
    pub fn from_u64(n: u64) -> (r: Option<GatewayOpCode>)
        ensures
            r == opcode_of(n),
    {
        if n == 0 {
            Some(GatewayOpCode::Dispatch)
        } else if n == 1 {
            Some(GatewayOpCode::Heartbeat)
        } else if n == 2 {
            Some(GatewayOpCode::Identify)
        } else if n == 3 {
            Some(GatewayOpCode::PresenceUpdate)
        } else if n == 4 {
            Some(GatewayOpCode::VoiceStateUpdate)
        } else if n == 6 {
            Some(GatewayOpCode::Resume)
        } else if n == 7 {
            Some(GatewayOpCode::Reconnect)
        } else if n == 8 {
            Some(GatewayOpCode::RequestGuildMembers)
        } else if n == 9 {
            Some(GatewayOpCode::InvalidSession)
        } else if n == 10 {
            Some(GatewayOpCode::Hello)
        } else if n == 11 {
            Some(GatewayOpCode::HeartbeatAck)
        } else {
            None
        }
    }

    /// The number that stands for this opcode on the wire.
    pub fn number(&self) -> (r: u64)
        ensures
            r == opcode_number(*self),
            opcode_of(r) == Some(*self),
    {
        match self {
            GatewayOpCode::Dispatch => 0,
            GatewayOpCode::Heartbeat => 1,
            GatewayOpCode::Identify => 2,
            GatewayOpCode::PresenceUpdate => 3,
            GatewayOpCode::VoiceStateUpdate => 4,
            GatewayOpCode::Resume => 6,
            GatewayOpCode::Reconnect => 7,
            GatewayOpCode::RequestGuildMembers => 8,
            GatewayOpCode::InvalidSession => 9,
            GatewayOpCode::Hello => 10,
            GatewayOpCode::HeartbeatAck => 11,
        }
    }
}

} // verus!
