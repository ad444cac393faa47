use vstd::prelude::*;

verus! {

use crate::error::Error;

/// The `d` field of a Hello payload: how often the gateway wants a heartbeat.
#[derive(Debug, PartialEq, Eq, Structural, Clone, Copy)]
pub struct Hello {
    pub heartbeat_interval: u64,
}

/// The opcodes of the Discord gateway.
#[derive(Debug, PartialEq, Eq, Structural, Clone, Copy)]
pub enum GatewayOpcode {
    /// RECEIVE An event was dispatched.
    Dispatch(),
    /// SEND/RECEIVE Fired periodically by the client to keep the connection alive.
    Heartbeat(),
    /// SEND Starts a new session during the initial handshake.
    Identify(),
    /// SEND Update the client's presence.
    PresenceUpdate(),
    /// SEND Used to join/leave or move between voice channels.
    VoiceStateUpdate(),
    /// SEND Resume a previous session that was disconnected.
    Resume(),
    /// RECEIVE You must reconnect with a new session immediately.
    Reconnect(),
    /// SEND Request information about offline guild members in a large guild.
    RequestGuildMembers(),
    /// RECEIVE The session has been invalidated. You should reconnect and identify/resume accordingly.
    InvalidSession(),
    /// RECEIVE Sent immediately after connecting, contains the heartbeat_interval to use.
    Hello(Hello),
    /// RECEIVE Sent in response to receiving a heartbeat to acknowledge that it has been received.
    HeartbeatACK(),
}

/// The text of the error for a payload whose `op` is missing, not a
/// non-negative integer, or no known opcode.
pub open spec fn invalid_opcode_text() -> Seq<char> {
    "Invalid gateway request, opcode not a number"@
}

/// The opcode that an `op` number other than Hello's stands for, if any.
pub open spec fn spec_opcode_without_data(op: u64) -> Option<GatewayOpcode> {
    if op == 0 { Some(GatewayOpcode::Dispatch()) }
    else if op == 1 { Some(GatewayOpcode::Heartbeat()) }
    else if op == 2 { Some(GatewayOpcode::Identify()) }
    else if op == 3 { Some(GatewayOpcode::PresenceUpdate()) }
    else if op == 4 { Some(GatewayOpcode::VoiceStateUpdate()) }
    else if op == 6 { Some(GatewayOpcode::Resume()) }
    else if op == 7 { Some(GatewayOpcode::Reconnect()) }
    else if op == 8 { Some(GatewayOpcode::RequestGuildMembers()) }
    else if op == 9 { Some(GatewayOpcode::InvalidSession()) }
    else if op == 11 { Some(GatewayOpcode::HeartbeatACK()) }
    else { None }
}

/// The `op` number of an opcode.
pub open spec fn spec_opcode_number(c: GatewayOpcode) -> u64 {
    match c {
        GatewayOpcode::Dispatch() => 0,
        GatewayOpcode::Heartbeat() => 1,
        GatewayOpcode::Identify() => 2,
        GatewayOpcode::PresenceUpdate() => 3,
        GatewayOpcode::VoiceStateUpdate() => 4,
        GatewayOpcode::Resume() => 6,
        GatewayOpcode::Reconnect() => 7,
        GatewayOpcode::RequestGuildMembers() => 8,
        GatewayOpcode::InvalidSession() => 9,
        GatewayOpcode::Hello(_) => 10,
        GatewayOpcode::HeartbeatACK() => 11,
    }
}

fn invalid_opcode() -> (e: Error)
    ensures
        e matches Error::Text(s) && s@ == invalid_opcode_text(),
{
    Error::Text("Invalid gateway request, opcode not a number".to_owned())
}

impl GatewayOpcode {
    /// Decodes a gateway payload from its `op` field, read as a non-negative
    /// integer (`None` when it is absent or not one), and from the result of
    /// reading its `d` field as a Hello, which only opcode 10 uses.
    pub fn decode(op: Option<u64>, hello: Result<Hello, Error>) -> (r: Result<GatewayOpcode, Error>)
        ensures
            match op {
                Some(n) => if n == 10 {
                    match hello {
                        Ok(h) => r == Ok::<GatewayOpcode, Error>(GatewayOpcode::Hello(h)),
                        Err(e) => r == Err::<GatewayOpcode, Error>(e),
                    }
                } else {
                    match spec_opcode_without_data(n) {
                        Some(c) => r == Ok::<GatewayOpcode, Error>(c),
                        None => r matches Err(Error::Text(s)) && s@ == invalid_opcode_text(),
                    }
                },
                None => r matches Err(Error::Text(s)) && s@ == invalid_opcode_text(),
            },
    {
        match op {
            Some(0) => Ok(GatewayOpcode::Dispatch()),
            Some(1) => Ok(GatewayOpcode::Heartbeat()),
            Some(2) => Ok(GatewayOpcode::Identify()),
            Some(3) => Ok(GatewayOpcode::PresenceUpdate()),
            Some(4) => Ok(GatewayOpcode::VoiceStateUpdate()),
            Some(6) => Ok(GatewayOpcode::Resume()),
            Some(7) => Ok(GatewayOpcode::Reconnect()),
            Some(8) => Ok(GatewayOpcode::RequestGuildMembers()),
            Some(9) => Ok(GatewayOpcode::InvalidSession()),
            Some(10) => match hello {
                Ok(h) => Ok(GatewayOpcode::Hello(h)),
                Err(e) => Err(e),
            },
            Some(11) => Ok(GatewayOpcode::HeartbeatACK()),
            _ => Err(invalid_opcode()),
        }
    }
}

/// Every opcode is decoded back from its own number (a Hello from its
/// number and its data).
pub proof fn lemma_opcode_number_decodes(c: GatewayOpcode)
    ensures
        match c {
            GatewayOpcode::Hello(_) => spec_opcode_number(c) == 10,
            _ => spec_opcode_without_data(spec_opcode_number(c)) == Some(c),
        },
{
}

/// The gateway's opcodes are numbered as Discord documents them: 0 Dispatch,
/// 1 Heartbeat, 2 Identify, 3 Presence Update, 4 Voice State Update,
/// 6 Resume, 7 Reconnect, 8 Request Guild Members, 9 Invalid Session,
/// 10 Hello, 11 Heartbeat ACK; 5 and every number above 11 name none.
pub proof fn lemma_documented_opcodes(h: Hello)
    ensures
        spec_opcode_without_data(0) == Some(GatewayOpcode::Dispatch()),
        spec_opcode_without_data(1) == Some(GatewayOpcode::Heartbeat()),
        spec_opcode_without_data(2) == Some(GatewayOpcode::Identify()),
        spec_opcode_without_data(3) == Some(GatewayOpcode::PresenceUpdate()),
        spec_opcode_without_data(4) == Some(GatewayOpcode::VoiceStateUpdate()),
        spec_opcode_without_data(5) is None,
        spec_opcode_without_data(6) == Some(GatewayOpcode::Resume()),
        spec_opcode_without_data(7) == Some(GatewayOpcode::Reconnect()),
        spec_opcode_without_data(8) == Some(GatewayOpcode::RequestGuildMembers()),
        spec_opcode_without_data(9) == Some(GatewayOpcode::InvalidSession()),
        spec_opcode_without_data(10) is None,
        spec_opcode_without_data(11) == Some(GatewayOpcode::HeartbeatACK()),
        forall|n: u64| n > 11 ==> spec_opcode_without_data(n) is None,
        spec_opcode_number(GatewayOpcode::Hello(h)) == 10,
{
}

} // verus!
