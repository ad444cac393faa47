use vstd::prelude::*;

verus! {

use crate::gateway::gatewayopcode::{GatewayOpcode, spec_opcode_without_data};

/// The `properties` of an Identify payload: who is connecting.
#[derive(Debug)]
pub struct IdentifyProperties {
    pub os: String,
    pub browser: String,
    pub device: String,
}

/// The data of an Identify payload, which starts a new gateway session.
#[derive(Debug)]
pub struct Identify {
    pub token: String,
    pub properties: IdentifyProperties,
    pub compress: bool,
    pub shard: (u32, u32),
    pub guild_subscriptions: bool,
    pub intents: u32,
}

/// The payloads a shard sends to the gateway.
#[derive(Debug)]
pub enum GatewayPayload {
    /// A heartbeat carrying the last sequence number seen.
    Heartbeat(Option<u64>),
    /// The start of a new session.
    Identify(Identify),
    /// The resumption of a session: token, session id and last sequence number.
    Resume(String, String, u64),
}

/// The `op` number that a payload is sent with.
pub open spec fn spec_payload_opcode(p: GatewayPayload) -> u64 {
    match p {
        GatewayPayload::Heartbeat(_) => 1,
        GatewayPayload::Identify(_) => 2,
        GatewayPayload::Resume(_, _, _) => 6,
    }
}

impl GatewayPayload {
    /// The `op` number that this payload is sent with.
    pub fn opcode(&self) -> (op: u64)
        ensures
            op == spec_payload_opcode(*self),
    {
        match self {
            GatewayPayload::Heartbeat(_) => 1,
            GatewayPayload::Identify(_) => 2,
            GatewayPayload::Resume(_, _, _) => 6,
        }
    }
}

/// The opcode of a payload's kind.
pub open spec fn spec_payload_kind(p: GatewayPayload) -> GatewayOpcode {
    match p {
        GatewayPayload::Heartbeat(_) => GatewayOpcode::Heartbeat(),
        GatewayPayload::Identify(_) => GatewayOpcode::Identify(),
        GatewayPayload::Resume(_, _, _) => GatewayOpcode::Resume(),
    }
}

/// A payload that a shard sends is decoded, by the op number it is sent
/// with, as the opcode of its own kind.
pub proof fn lemma_sent_payload_decodes(p: GatewayPayload)
    ensures
        spec_opcode_without_data(spec_payload_opcode(p)) == Some(spec_payload_kind(p)),
{
}

/// A shard sends a heartbeat with op 1, an Identify with op 2 and a Resume
/// with op 6, as Discord documents them.
pub proof fn lemma_documented_payload_opcodes(seq: Option<u64>, id: Identify, token: String, session: String, last: u64)
    ensures
        spec_payload_opcode(GatewayPayload::Heartbeat(seq)) == 1,
        spec_payload_opcode(GatewayPayload::Identify(id)) == 2,
        spec_payload_opcode(GatewayPayload::Resume(token, session, last)) == 6,
{
}

} // verus!
