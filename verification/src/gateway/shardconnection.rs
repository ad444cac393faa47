use vstd::prelude::*;

verus! {

use crate::gateway::close_code::{close_code, spec_close_code_from_number, spec_resolve, GatewayErrorResolve};
use crate::gateway::gatewayopcode::{GatewayOpcode, Hello};
use crate::gateway::op_code::{GatewayPayload, Identify, IdentifyProperties};
use crate::util::error::Error;
use crate::util::{push_decimal, spec_decimal};

/// The address of the Discord gateway.
pub const DISCORD_GATEWAY: &'static str = "wss://gateway.discord.gg";

/// The version of the gateway protocol that shards speak.
pub const GATEWAY_VERSION: u8 = 6;

/// The heartbeat interval a shard assumes until the gateway says otherwise.
pub const DEFAULT_HEARTBEAT_INTERVAL: u64 = 45000;

/// Where a shard's connection stands.
#[derive(Debug, PartialEq, Eq, Structural, Clone, Copy)]
pub enum GatewayState {
    Connecting,
    Connected,
    Reconnecting,
    Resuming,
    Disconnected,
}

/// What a shard knows of its gateway session.
#[derive(Debug)]
pub struct Shard {
    /// The gateway address the shard connects to.
    pub url: String,
    /// The id of the session, once the gateway has given one.
    pub session_id: Option<String>,
    /// The bot token the shard identifies with.
    pub token: String,
    /// The last sequence number the gateway sent.
    pub seq: Option<u64>,
    pub state: GatewayState,
    /// Milliseconds between heartbeats.
    pub heartbeat_interval: u64,
    /// This shard's id and the total number of shards.
    pub shard_info: (u32, u32),
}

/// The code of a close frame, as far as a shard tells codes apart.
#[derive(Debug, PartialEq, Eq, Structural, Clone, Copy)]
pub enum CloseKind {
    /// A normal closure (1000).
    Normal,
    /// A code in the range that applications define (4000 to 4999).
    Library(u16),
    /// Any other code.
    Other,
}

/// What reading the gateway socket gave.
#[derive(Debug)]
pub enum IncomingMessage {
    Text(String),
    /// A zlib-compressed payload.
    Binary(Vec<u8>),
    /// A close frame, with its code when it has one.
    Close(Option<CloseKind>),
    /// A ping, a pong or a raw frame.
    Other,
    /// The read failed.
    ReadError,
}

/// What a shard makes of a message from the socket.
#[derive(Debug)]
pub enum Received {
    /// A payload read as JSON: its `op` and its `d` each read as a
    /// non-negative integer (`None` when absent or not one), and its `d` as read.
    Payload(Option<u64>, Option<u64>, serde_json::Value),
    /// Nothing to act on.
    Ignored,
    /// The shard stops with this error.
    Stop(Error),
}

/// What a shard does after handling a payload.
#[derive(Debug)]
pub enum ShardAction {
    /// Go on reading.
    Continue,
    /// Send this Identify to the gateway.
    SendIdentify(Identify),
    /// Take the time since the last heartbeat as the ping.
    MeasurePing,
    /// Stop with this error.
    Stop(Error),
    /// The payload is not one a shard receives.
    Unexpected(GatewayOpcode),
}

/// Names what reading a text payload as JSON with `serde_json::from_str`
/// gives: its `op` and its `d`, each read with `Value::as_u64`, and its `d`
/// as read (`Value::Null` when absent); `None` when the text is not JSON.
pub uninterp spec fn json_payload(text: Seq<char>) -> Option<(Option<u64>, Option<u64>, serde_json::Value)>;

/// Names what reading a zlib-compressed payload as JSON with
/// `serde_json::from_reader` over a `flate2::read::ZlibDecoder` gives: its
/// `op` and its `d`, each read with `Value::as_u64`, and its `d` as read
/// (`Value::Null` when absent); `None` when the bytes do not inflate to JSON.
pub uninterp spec fn zlib_json_payload(compressed: Seq<u8>) -> Option<(Option<u64>, Option<u64>, serde_json::Value)>;

/// The JSON text of an object whose `op` and `d` are the given integers,
/// written in decimal: `{"op":OP,"d":D}`.
pub open spec fn op_and_d_json_text(op: u64, d: u64) -> Seq<char> {
    "{\"op\":"@ + spec_decimal(op as nat) + ",\"d\":"@ + spec_decimal(d as nat) + "}"@
}

/// Reads a text payload with `serde_json::from_str` into a `Value`, then its
/// `op` and `d` with indexing and `Value::as_u64`, and hands on a copy of its
/// `d`. The contract claims the result is the named `json_payload` of the
/// text, and that the object `{"op":OP,"d":D}` with two integers written in
/// decimal is read as those two integers. What it reads from other texts is
/// left to the name.
#[verifier::external_body]
fn read_payload(text: &str) -> (r: Result<(Option<u64>, Option<u64>, serde_json::Value), serde_json::Error>)
    ensures
        match r {
            Ok(read) => json_payload(text@) == Some(read)
                && forall|op: u64, d: u64| text@ == #[trigger] op_and_d_json_text(op, d)
                    ==> read.0 == Some(op) && read.1 == Some(d),
            Err(_) => json_payload(text@) is None
                && forall|op: u64, d: u64| text@ != #[trigger] op_and_d_json_text(op, d),
        },
{
    match serde_json::from_str::<serde_json::Value>(text) {
        Ok(v) => Ok((v["op"].as_u64(), v["d"].as_u64(), v["d"].clone())),
        Err(e) => Err(e),
    }
}

/// Reads a zlib-compressed payload with `serde_json::from_reader` over a
/// `flate2::read::ZlibDecoder` into a `Value`, then its `op` and `d` with
/// indexing and `Value::as_u64`, and hands on a copy of its `d`. The contract
/// claims the result is the named `zlib_json_payload` of the bytes.
#[verifier::external_body]
fn read_zlib_payload(compressed: &[u8]) -> (r: Result<(Option<u64>, Option<u64>, serde_json::Value), serde_json::Error>)
    ensures
        match r {
            Ok(read) => zlib_json_payload(compressed@) == Some(read),
            Err(_) => zlib_json_payload(compressed@) is None,
        },
{
    match serde_json::from_reader::<_, serde_json::Value>(flate2::read::ZlibDecoder::new(compressed)) {
        Ok(v) => Ok((v["op"].as_u64(), v["d"].as_u64(), v["d"].clone())),
        Err(e) => Err(e),
    }
}

/// The address a shard connects to: the gateway, asking for the protocol version.
pub open spec fn spec_gateway_url() -> Seq<char> {
    DISCORD_GATEWAY@ + "/?v="@ + spec_decimal(GATEWAY_VERSION as nat)
}

/// The error a shard stops with when the gateway closes the connection:
/// the close code of an application code that names one, an invalid close
/// code error for one that names none, a timeout for a normal closure, and
/// an unknown close otherwise.
pub open spec fn spec_close_error(frame: Option<CloseKind>) -> Error {
    match frame {
        Some(CloseKind::Library(n)) => match spec_close_code_from_number(n) {
            Some(c) => Error::GatewayError(c),
            None => Error::Invalidclose_code(n),
        },
        Some(CloseKind::Normal) => Error::GatewayError(close_code::TimeOut),
        _ => Error::GatewayError(close_code::UnknownCloseCode),
    }
}

/// A shard after a message from the socket: a close frame disconnects it,
/// nothing else changes it.
pub open spec fn spec_after_message(s: Shard, msg: IncomingMessage) -> Shard {
    match msg {
        IncomingMessage::Close(_) => Shard { state: GatewayState::Disconnected, ..s },
        _ => s,
    }
}

/// A shard after a payload from the gateway: a Hello sets the heartbeat
/// interval, a Heartbeat the sequence number, a Reconnect makes it resume and
/// an InvalidSession makes it reconnect; nothing else changes it.
pub open spec fn spec_after_payload(s: Shard, payload: GatewayOpcode, seq: Option<u64>) -> Shard {
    match payload {
        GatewayOpcode::Hello(h) => Shard { heartbeat_interval: h.heartbeat_interval, ..s },
        GatewayOpcode::Heartbeat() => Shard { seq: seq, ..s },
        GatewayOpcode::Reconnect() => Shard { state: GatewayState::Resuming, ..s },
        GatewayOpcode::InvalidSession() => Shard { state: GatewayState::Reconnecting, ..s },
        _ => s,
    }
}

/// The close code a shard stops with when a payload ends its session: a
/// reconnect for a Reconnect and for an InvalidSession.
pub open spec fn spec_session_stop_code(payload: GatewayOpcode) -> Option<close_code> {
    match payload {
        GatewayOpcode::Reconnect() => Some(close_code::Reconnect),
        GatewayOpcode::InvalidSession() => Some(close_code::Reconnect),
        _ => None,
    }
}

/// `id` is the Identify that shard `s` sends from an operating system named `os`.
pub open spec fn is_identify_for(id: Identify, s: Shard, os: Seq<char>) -> bool {
    &&& id.token == s.token
    &&& id.properties.os@ == os
    &&& id.properties.browser@ == "HikaruLib"@
    &&& id.properties.device@ == "HikaruLib"@
    &&& id.compress
    &&& id.shard == s.shard_info
    &&& !id.guild_subscriptions
    &&& id.intents == 0
}

/// The error a shard stops with when the gateway closes the connection.
pub fn close_error(frame: Option<CloseKind>) -> (e: Error)
    ensures
        e == spec_close_error(frame),
{
    match frame {
        Some(CloseKind::Library(n)) => match close_code::try_from_primitive(n) {
            Ok(c) => Error::GatewayError(c),
            Err(n) => Error::Invalidclose_code(n),
        },
        Some(CloseKind::Normal) => Error::GatewayError(close_code::TimeOut),
        _ => Error::GatewayError(close_code::UnknownCloseCode),
    }
}

impl Received {
    /// What a shard makes of a payload read as JSON: its numbers and data, or
    /// a stop with the error that reading gave.
    pub fn from_read(read: Result<(Option<u64>, Option<u64>, serde_json::Value), serde_json::Error>) -> (r: Received)
        ensures
            match read {
                Ok((op, d, data)) => r == Received::Payload(op, d, data),
                Err(e) => r == Received::Stop(Error::SerdeError(e)),
            },
    {
        match read {
            Ok((op, d, data)) => Received::Payload(op, d, data),
            Err(e) => Received::Stop(Error::SerdeError(e)),
        }
    }
}

impl Hello {
    /// Takes the gateway's Hello: sets the shard's heartbeat interval and,
    /// unless the shard is reconnecting, gives the Identify to send.
    pub fn handle_payload(&self, shard: &mut Shard, os: &str) -> (r: Option<Identify>)
        ensures
            *final(shard) == (Shard { heartbeat_interval: self.heartbeat_interval, ..*old(shard) }),
            old(shard).state != GatewayState::Reconnecting ==> (r matches Some(id)
                && is_identify_for(id, *old(shard), os@)),
            old(shard).state == GatewayState::Reconnecting ==> r is None,
    {
        shard.heartbeat_interval = self.heartbeat_interval;
        if shard.state != GatewayState::Reconnecting {
            Some(Identify {
                token: shard.token.clone(),
                properties: IdentifyProperties {
                    os: os.to_owned(),
                    browser: "HikaruLib".to_owned(),
                    device: "HikaruLib".to_owned(),
                },
                compress: true,
                shard: shard.shard_info,
                guild_subscriptions: false,
                intents: 0,
            })
        } else {
            None
        }
    }
}

impl Shard {
    /// A shard that has not yet connected: it will reach the gateway at the
    /// versioned gateway address and identify with `token`.
    pub fn new(token: &str, shards: (u32, u32)) -> (s: Shard)
        ensures
            s.url@ == spec_gateway_url(),
            s.token@ == token@,
            s.session_id is None,
            s.seq is None,
            s.state == GatewayState::Connecting,
            s.heartbeat_interval == DEFAULT_HEARTBEAT_INTERVAL,
            s.shard_info == shards,
    {
        let mut url = DISCORD_GATEWAY.to_owned();
        url.append("/?v=");
        push_decimal(&mut url, GATEWAY_VERSION as u64);
        Shard {
            url,
            session_id: None,
            token: token.to_owned(),
            seq: None,
            state: GatewayState::Connecting,
            heartbeat_interval: DEFAULT_HEARTBEAT_INTERVAL,
            shard_info: shards,
        }
    }

    /// Takes a message from the socket: reads a text payload as JSON and a
    /// binary one as zlib-compressed JSON, passing on its numbers and data or
    /// stopping with the error of reading; on a close frame marks the shard
    /// disconnected and stops with the matching error; ignores anything else.
    pub fn receive(&mut self, msg: IncomingMessage) -> (r: Received)
        ensures
            *final(self) == spec_after_message(*old(self), msg),
            match msg {
                IncomingMessage::Text(t) => (match json_payload(t@) {
                    Some((op, d, data)) => r == Received::Payload(op, d, data),
                    None => r matches Received::Stop(Error::SerdeError(_)),
                }) && forall|op: u64, d: u64| t@ == #[trigger] op_and_d_json_text(op, d) ==>
                    (r matches Received::Payload(rop, rd, _) && rop == Some(op) && rd == Some(d)),
                IncomingMessage::Binary(b) => match zlib_json_payload(b@) {
                    Some((op, d, data)) => r == Received::Payload(op, d, data),
                    None => r matches Received::Stop(Error::SerdeError(_)),
                },
                IncomingMessage::Close(frame) => r == Received::Stop(spec_close_error(frame)),
                IncomingMessage::Other => r == Received::Ignored,
                IncomingMessage::ReadError => r == Received::Ignored,
            },
    {
        match msg {
            IncomingMessage::Text(text) => Received::from_read(read_payload(text.as_str())),
            IncomingMessage::Binary(bytes) => Received::from_read(read_zlib_payload(bytes.as_slice())),
            IncomingMessage::Close(frame) => {
                self.state = GatewayState::Disconnected;
                Received::Stop(close_error(frame))
            },
            IncomingMessage::Other => Received::Ignored,
            IncomingMessage::ReadError => Received::Ignored,
        }
    }

    /// Takes a decoded payload from the gateway, with the sequence number
    /// that came with it, and says what to do next.
    pub fn handle_payload(&mut self, payload: GatewayOpcode, seq: Option<u64>, os: &str) -> (r: ShardAction)
        ensures
            *final(self) == spec_after_payload(*old(self), payload, seq),
            match payload {
                GatewayOpcode::Hello(_) => if old(self).state != GatewayState::Reconnecting {
                    r matches ShardAction::SendIdentify(id) && is_identify_for(id, *old(self), os@)
                } else {
                    r == ShardAction::Continue
                },
                GatewayOpcode::Heartbeat() => r == ShardAction::Continue,
                GatewayOpcode::Dispatch() => r == ShardAction::Continue,
                GatewayOpcode::Reconnect() | GatewayOpcode::InvalidSession() =>
                    spec_session_stop_code(payload) matches Some(c)
                        && r == ShardAction::Stop(Error::GatewayError(c)),
                GatewayOpcode::HeartbeatACK() => r == ShardAction::MeasurePing,
                _ => r == ShardAction::Unexpected(payload),
            },
    {
        match payload {
            GatewayOpcode::Hello(hello) => match hello.handle_payload(self, os) {
                Some(identify) => ShardAction::SendIdentify(identify),
                None => ShardAction::Continue,
            },
            GatewayOpcode::Heartbeat() => {
                self.seq = seq;
                ShardAction::Continue
            },
            GatewayOpcode::Dispatch() => ShardAction::Continue,
            GatewayOpcode::Reconnect() => {
                self.state = GatewayState::Resuming;
                ShardAction::Stop(Error::GatewayError(close_code::Reconnect))
            },
            GatewayOpcode::InvalidSession() => {
                self.state = GatewayState::Reconnecting;
                ShardAction::Stop(Error::GatewayError(close_code::Reconnect))
            },
            GatewayOpcode::HeartbeatACK() => ShardAction::MeasurePing,
            _ => ShardAction::Unexpected(payload),
        }
    }

    /// The heartbeat this shard sends: its last sequence number.
    pub fn heartbeat_payload(&self) -> (p: GatewayPayload)
        ensures
            p == GatewayPayload::Heartbeat(self.seq),
    {
        GatewayPayload::Heartbeat(self.seq)
    }

    /// The Resume this shard sends to pick its session up again.
    pub fn resume_payload(&self) -> (p: GatewayPayload)
        requires
            self.session_id is Some,
            self.seq is Some,
        ensures
            p matches GatewayPayload::Resume(token, session, seq) && token == self.token
                && session == self.session_id.unwrap() && seq == self.seq.unwrap(),
    {
        GatewayPayload::Resume(self.token.clone(), self.session_id.as_ref().unwrap().clone(), self.seq.unwrap())
    }
}

/// A shard after a sequence of payloads, each with its sequence number, taken in order.
pub open spec fn spec_after_payloads(s: Shard, payloads: Seq<(GatewayOpcode, Option<u64>)>) -> Shard
    decreases payloads.len(),
{
    if payloads.len() == 0 {
        s
    } else {
        spec_after_payload(
            spec_after_payloads(s, payloads.drop_last()),
            payloads.last().0,
            payloads.last().1,
        )
    }
}

/// No payload changes which shard it is: its address, token, session and
/// shard numbers stay as they were, whatever the gateway sends.
pub proof fn lemma_payloads_keep_identity(s: Shard, payloads: Seq<(GatewayOpcode, Option<u64>)>)
    ensures
        spec_after_payloads(s, payloads).url == s.url,
        spec_after_payloads(s, payloads).token == s.token,
        spec_after_payloads(s, payloads).session_id == s.session_id,
        spec_after_payloads(s, payloads).shard_info == s.shard_info,
    decreases payloads.len(),
{
    if payloads.len() > 0 {
        lemma_payloads_keep_identity(s, payloads.drop_last());
    }
}

/// The heartbeat interval that a payload carries, when it is a Hello.
pub open spec fn hello_interval(payload: GatewayOpcode) -> Option<u64> {
    match payload {
        GatewayOpcode::Hello(h) => Some(h.heartbeat_interval),
        _ => None,
    }
}

/// The heartbeat interval of a shard is the one of the last Hello it was
/// sent; with no Hello, it is the one it had.
pub proof fn lemma_heartbeat_interval_is_last_hello(s: Shard, payloads: Seq<(GatewayOpcode, Option<u64>)>)
    ensures
        ({
            let interval = spec_after_payloads(s, payloads).heartbeat_interval;
            ||| (exists|i: int| #![trigger payloads[i]] 0 <= i < payloads.len()
                    && hello_interval(payloads[i].0) == Some(interval)
                    && forall|j: int| i < j < payloads.len() ==> !(payloads[j].0 is Hello))
            ||| ((forall|j: int| 0 <= j < payloads.len() ==> !(payloads[j].0 is Hello))
                    && interval == s.heartbeat_interval)
        }),
    decreases payloads.len(),
{
    if payloads.len() > 0 {
        let prefix = payloads.drop_last();
        let n = payloads.len() - 1;
        lemma_heartbeat_interval_is_last_hello(s, prefix);
        assert(forall|j: int| 0 <= j < prefix.len() ==> prefix[j] == payloads[j]);
        if payloads[n].0 is Hello {
            assert(hello_interval(payloads[n].0) == Some(spec_after_payloads(s, payloads).heartbeat_interval));
        } else {
            let interval = spec_after_payloads(s, payloads).heartbeat_interval;
            assert(interval == spec_after_payloads(s, prefix).heartbeat_interval);
            if exists|i: int| #![trigger prefix[i]] 0 <= i < prefix.len()
                && hello_interval(prefix[i].0) == Some(interval)
                && forall|j: int| i < j < prefix.len() ==> !(prefix[j].0 is Hello) {
                let i = choose|i: int| #![trigger prefix[i]] 0 <= i < prefix.len()
                    && hello_interval(prefix[i].0) == Some(interval)
                    && forall|j: int| i < j < prefix.len() ==> !(prefix[j].0 is Hello);
                assert(payloads[i] == prefix[i]);
            }
        }
    }
}

/// The sequence number of a shard is the one that came with the last
/// Heartbeat it was sent; with no Heartbeat, it is the one it had.
pub proof fn lemma_seq_is_last_heartbeat(s: Shard, payloads: Seq<(GatewayOpcode, Option<u64>)>)
    ensures
        ({
            let seq = spec_after_payloads(s, payloads).seq;
            ||| (exists|i: int| #![trigger payloads[i]] 0 <= i < payloads.len()
                    && payloads[i].0 is Heartbeat
                    && payloads[i].1 == seq
                    && forall|j: int| i < j < payloads.len() ==> !(payloads[j].0 is Heartbeat))
            ||| ((forall|j: int| 0 <= j < payloads.len() ==> !(payloads[j].0 is Heartbeat))
                    && seq == s.seq)
        }),
    decreases payloads.len(),
{
    if payloads.len() > 0 {
        let prefix = payloads.drop_last();
        let n = payloads.len() - 1;
        lemma_seq_is_last_heartbeat(s, prefix);
        assert(forall|j: int| 0 <= j < prefix.len() ==> prefix[j] == payloads[j]);
        if payloads[n].0 is Heartbeat {
            assert(payloads[n].1 == spec_after_payloads(s, payloads).seq);
        } else {
            let seq = spec_after_payloads(s, payloads).seq;
            assert(seq == spec_after_payloads(s, prefix).seq);
            if exists|i: int| #![trigger prefix[i]] 0 <= i < prefix.len()
                && prefix[i].0 is Heartbeat
                && prefix[i].1 == seq
                && forall|j: int| i < j < prefix.len() ==> !(prefix[j].0 is Heartbeat) {
                let i = choose|i: int| #![trigger prefix[i]] 0 <= i < prefix.len()
                    && prefix[i].0 is Heartbeat
                    && prefix[i].1 == seq
                    && forall|j: int| i < j < prefix.len() ==> !(prefix[j].0 is Heartbeat);
                assert(payloads[i] == prefix[i]);
            }
        }
    }
}

/// Whether a payload moves a shard to another state.
pub open spec fn changes_state(payload: GatewayOpcode) -> bool {
    payload is Reconnect || payload is InvalidSession
}

/// The state of a shard is set by the last Reconnect (resuming) or
/// InvalidSession (reconnecting) it was sent; with neither, it is the state
/// it had.
pub proof fn lemma_state_is_last_session_change(s: Shard, payloads: Seq<(GatewayOpcode, Option<u64>)>)
    ensures
        ({
            let state = spec_after_payloads(s, payloads).state;
            ||| (exists|i: int| #![trigger payloads[i]] 0 <= i < payloads.len()
                    && changes_state(payloads[i].0)
                    && (payloads[i].0 is Reconnect ==> state == GatewayState::Resuming)
                    && (payloads[i].0 is InvalidSession ==> state == GatewayState::Reconnecting)
                    && forall|j: int| i < j < payloads.len() ==> !changes_state(payloads[j].0))
            ||| ((forall|j: int| 0 <= j < payloads.len() ==> !changes_state(payloads[j].0))
                    && state == s.state)
        }),
    decreases payloads.len(),
{
    if payloads.len() > 0 {
        let prefix = payloads.drop_last();
        let n = payloads.len() - 1;
        lemma_state_is_last_session_change(s, prefix);
        assert(forall|j: int| 0 <= j < prefix.len() ==> prefix[j] == payloads[j]);
        if !changes_state(payloads[n].0) {
            let state = spec_after_payloads(s, payloads).state;
            assert(state == spec_after_payloads(s, prefix).state);
            if exists|i: int| #![trigger prefix[i]] 0 <= i < prefix.len()
                && changes_state(prefix[i].0)
                && (prefix[i].0 is Reconnect ==> state == GatewayState::Resuming)
                && (prefix[i].0 is InvalidSession ==> state == GatewayState::Reconnecting)
                && forall|j: int| i < j < prefix.len() ==> !changes_state(prefix[j].0) {
                let i = choose|i: int| #![trigger prefix[i]] 0 <= i < prefix.len()
                    && changes_state(prefix[i].0)
                    && (prefix[i].0 is Reconnect ==> state == GatewayState::Resuming)
                    && (prefix[i].0 is InvalidSession ==> state == GatewayState::Reconnecting)
                    && forall|j: int| i < j < prefix.len() ==> !changes_state(prefix[j].0);
                assert(payloads[i] == prefix[i]);
            }
        }
    }
}

/// A close frame that carries, as an application code, the number of a
/// close code of the gateway's own range is read back as that close code.
pub proof fn lemma_close_frame_round_trip(c: close_code)
    requires
        4000 <= crate::gateway::close_code::spec_close_code_number(c),
    ensures
        spec_close_error(Some(CloseKind::Library(crate::gateway::close_code::spec_close_code_number(c))))
            == Error::GatewayError(c),
{
}

/// When the gateway asks a shard to reconnect or says its session is
/// invalid, the shard stops with a close code that a client resolves by
/// reconnecting.
pub proof fn lemma_session_stop_resolves_to_reconnect(payload: GatewayOpcode)
    requires
        payload is Reconnect || payload is InvalidSession,
    ensures
        spec_session_stop_code(payload) matches Some(c)
            && spec_resolve(c) == GatewayErrorResolve::Reconnect,
{
}

/// Whether a message is one a shard ignores: a read error, or a ping, a pong
/// or a raw frame.
pub open spec fn is_ignored_message(m: IncomingMessage) -> bool {
    m is Other || m is ReadError
}

/// Whether a shard stops after handling a payload: it goes on after a Hello,
/// a Heartbeat, a Dispatch and a HeartbeatACK, and stops after anything else
/// (see the actions of `Shard::handle_payload`).
pub open spec fn payload_stops(payload: GatewayOpcode) -> bool {
    !(payload is Hello || payload is Heartbeat || payload is Dispatch || payload is HeartbeatACK)
}

/// One message of a shard's run: the shard after it, the payload it handed
/// to `Shard::handle_payload` if any, and whether the run stops there.
/// `decode` gives, for a text or binary message, the payload and sequence
/// number it decodes to, or `None` when reading or decoding it fails.
pub open spec fn spec_run_step(
    s: Shard,
    m: IncomingMessage,
    decode: spec_fn(IncomingMessage) -> Option<(GatewayOpcode, Option<u64>)>,
) -> (Shard, Option<(GatewayOpcode, Option<u64>)>, bool) {
    if m is Close {
        (spec_after_message(s, m), None, true)
    } else if is_ignored_message(m) {
        (s, None, false)
    } else {
        match decode(m) {
            Some((op, seq)) => (spec_after_payload(s, op, seq), Some((op, seq)), payload_stops(op)),
            None => (s, None, true),
        }
    }
}

/// A shard's run over the messages its socket yields, in order, up to the
/// first one it stops at: the shard at the end, the payloads it handled in
/// order, and whether it stopped.
pub open spec fn spec_run(
    s: Shard,
    msgs: Seq<IncomingMessage>,
    decode: spec_fn(IncomingMessage) -> Option<(GatewayOpcode, Option<u64>)>,
) -> (Shard, Seq<(GatewayOpcode, Option<u64>)>, bool)
    decreases msgs.len(),
{
    if msgs.len() == 0 {
        (s, Seq::empty(), false)
    } else {
        let step = spec_run_step(s, msgs[0], decode);
        let handled = match step.1 {
            Some(p) => seq![p],
            None => Seq::empty(),
        };
        if step.2 {
            (step.0, handled, true)
        } else {
            let rest = spec_run(step.0, msgs.drop_first(), decode);
            (rest.0, handled + rest.1, rest.2)
        }
    }
}

/// Ignored messages change nothing of a whole run: inserting a read error, a
/// ping, a pong or a raw frame anywhere among the messages a shard's socket
/// yields leaves the shard at the end, the payloads it handles (and so the
/// actions it takes and the payloads it sends) and whether it stops as they
/// are without it, however the other messages decode.
pub proof fn lemma_ignored_message_changes_no_run(
    s: Shard,
    before: Seq<IncomingMessage>,
    m: IncomingMessage,
    after: Seq<IncomingMessage>,
    decode: spec_fn(IncomingMessage) -> Option<(GatewayOpcode, Option<u64>)>,
)
    requires
        is_ignored_message(m),
    ensures
        spec_run(s, before + seq![m] + after, decode) == spec_run(s, before + after, decode),
    decreases before.len(),
{
    let with = before + seq![m] + after;
    let without = before + after;
    if before.len() == 0 {
        assert(with.drop_first() =~= without);
        assert(with[0] == m);
    } else {
        assert(with[0] == before[0]);
        assert(without[0] == before[0]);
        assert(with.drop_first() =~= before.drop_first() + seq![m] + after);
        assert(without.drop_first() =~= before.drop_first() + after);
        let step = spec_run_step(s, before[0], decode);
        lemma_ignored_message_changes_no_run(step.0, before.drop_first(), m, after, decode);
    }
}

/// A normal closure stops a shard with a timeout, a close frame with any
/// other code outside the applications' range, or with no code, with an
/// unknown close, and an application code with the close code of that
/// number, or with an invalid close code error when none has it.
pub proof fn lemma_close_errors(n: u16)
    ensures
        spec_close_error(Some(CloseKind::Normal)) == Error::GatewayError(close_code::TimeOut),
        spec_close_error(Some(CloseKind::Other)) == Error::GatewayError(close_code::UnknownCloseCode),
        spec_close_error(None) == Error::GatewayError(close_code::UnknownCloseCode),
        spec_close_code_from_number(n) matches Some(c)
            ==> spec_close_error(Some(CloseKind::Library(n))) == Error::GatewayError(c),
        spec_close_code_from_number(n) is None
            ==> spec_close_error(Some(CloseKind::Library(n))) == Error::Invalidclose_code(n),
{
}

} // verus!
