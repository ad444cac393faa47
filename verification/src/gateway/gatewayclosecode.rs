use vstd::prelude::*;

verus! {

/// Close codes a Discord gateway connection can end with.
///
/// The first two are the library's own (a normal close and a close without a
/// known code); the rest are the codes that Discord documents, each numbered
/// as on the wire.
#[derive(Debug, PartialEq, Eq, Structural, Clone, Copy)]
pub enum GatewayCloseCode {
    TimeOut,
    UnknownCloseCode,
    UnknownError,
    UnknownOpcode,
    DecodeError,
    Unauthorized,
    AuthenticationError,
    RepeatedAuth,
    InvalidSeq,
    RateLimit,
    SessionTimeOut,
    InvalidShard,
    ShardRequired,
    DeprecatedAPI,
    InvalidIntent,
    DisallowedIntent,
}

/// What a client does about a closed gateway connection.
#[derive(Debug, PartialEq, Eq, Structural, Clone, Copy)]
pub enum GatewayErrorResolve {
    Reconnect,
    NewSession,
    Panic,
}

/// The number that stands for a close code.
pub open spec fn spec_gateway_close_code_number(c: GatewayCloseCode) -> u16 {
    match c {
        GatewayCloseCode::TimeOut => 0,
        GatewayCloseCode::UnknownCloseCode => 1,
        GatewayCloseCode::UnknownError => 4000,
        GatewayCloseCode::UnknownOpcode => 4001,
        GatewayCloseCode::DecodeError => 4002,
        GatewayCloseCode::Unauthorized => 4003,
        GatewayCloseCode::AuthenticationError => 4004,
        GatewayCloseCode::RepeatedAuth => 4005,
        GatewayCloseCode::InvalidSeq => 4007,
        GatewayCloseCode::RateLimit => 4008,
        GatewayCloseCode::SessionTimeOut => 4009,
        GatewayCloseCode::InvalidShard => 4010,
        GatewayCloseCode::ShardRequired => 4011,
        GatewayCloseCode::DeprecatedAPI => 4012,
        GatewayCloseCode::InvalidIntent => 4013,
        GatewayCloseCode::DisallowedIntent => 4014,
    }
}

/// The close code that a number stands for, if any.
pub open spec fn spec_gateway_close_code_from_number(n: u16) -> Option<GatewayCloseCode> {
    if n == 0 { Some(GatewayCloseCode::TimeOut) }
    else if n == 1 { Some(GatewayCloseCode::UnknownCloseCode) }
    else if n == 4000 { Some(GatewayCloseCode::UnknownError) }
    else if n == 4001 { Some(GatewayCloseCode::UnknownOpcode) }
    else if n == 4002 { Some(GatewayCloseCode::DecodeError) }
    else if n == 4003 { Some(GatewayCloseCode::Unauthorized) }
    else if n == 4004 { Some(GatewayCloseCode::AuthenticationError) }
    else if n == 4005 { Some(GatewayCloseCode::RepeatedAuth) }
    else if n == 4007 { Some(GatewayCloseCode::InvalidSeq) }
    else if n == 4008 { Some(GatewayCloseCode::RateLimit) }
    else if n == 4009 { Some(GatewayCloseCode::SessionTimeOut) }
    else if n == 4010 { Some(GatewayCloseCode::InvalidShard) }
    else if n == 4011 { Some(GatewayCloseCode::ShardRequired) }
    else if n == 4012 { Some(GatewayCloseCode::DeprecatedAPI) }
    else if n == 4013 { Some(GatewayCloseCode::InvalidIntent) }
    else if n == 4014 { Some(GatewayCloseCode::DisallowedIntent) }
    else { None }
}

/// How a client reacts to a close code: reconnect on a timeout, an unknown
/// close, an unknown error or a rate limit; start a new session on an
/// invalid sequence or a session timeout; give up on anything else.
pub open spec fn spec_resolve_gateway_close_code(c: GatewayCloseCode) -> GatewayErrorResolve {
    if c == GatewayCloseCode::TimeOut || c == GatewayCloseCode::UnknownCloseCode
        || c == GatewayCloseCode::UnknownError || c == GatewayCloseCode::RateLimit {
        GatewayErrorResolve::Reconnect
    } else if c == GatewayCloseCode::InvalidSeq || c == GatewayCloseCode::SessionTimeOut {
        GatewayErrorResolve::NewSession
    } else {
        GatewayErrorResolve::Panic
    }
}

impl GatewayCloseCode {
    /// How a client reacts to this close code.
    pub fn resolve(&self) -> (r: GatewayErrorResolve)
        ensures
            r == spec_resolve_gateway_close_code(*self),
    {
        match self {
            GatewayCloseCode::TimeOut => GatewayErrorResolve::Reconnect,
            GatewayCloseCode::UnknownCloseCode => GatewayErrorResolve::Reconnect,
            GatewayCloseCode::UnknownError => GatewayErrorResolve::Reconnect,
            GatewayCloseCode::RateLimit => GatewayErrorResolve::Reconnect,
            GatewayCloseCode::InvalidSeq => GatewayErrorResolve::NewSession,
            GatewayCloseCode::SessionTimeOut => GatewayErrorResolve::NewSession,
            _ => GatewayErrorResolve::Panic,
        }
    }

    /// The number of this close code.
    pub fn number(&self) -> (n: u16)
        ensures
            n == spec_gateway_close_code_number(*self),
    {
        match self {
            GatewayCloseCode::TimeOut => 0,
            GatewayCloseCode::UnknownCloseCode => 1,
                GatewayCloseCode::UnknownError => 4000,
            GatewayCloseCode::UnknownOpcode => 4001,
            GatewayCloseCode::DecodeError => 4002,
            GatewayCloseCode::Unauthorized => 4003,
            GatewayCloseCode::AuthenticationError => 4004,
            GatewayCloseCode::RepeatedAuth => 4005,
            GatewayCloseCode::InvalidSeq => 4007,
            GatewayCloseCode::RateLimit => 4008,
            GatewayCloseCode::SessionTimeOut => 4009,
            GatewayCloseCode::InvalidShard => 4010,
            GatewayCloseCode::ShardRequired => 4011,
            GatewayCloseCode::DeprecatedAPI => 4012,
            GatewayCloseCode::InvalidIntent => 4013,
            GatewayCloseCode::DisallowedIntent => 4014,
        }
    }

    /// The close code with the given number; the number itself back when
    /// no close code has it.
    pub fn try_from_primitive(number: u16) -> (r: Result<GatewayCloseCode, u16>)
        ensures
            match spec_gateway_close_code_from_number(number) {
                Some(c) => r == Ok::<GatewayCloseCode, u16>(c),
                None => r == Err::<GatewayCloseCode, u16>(number),
            },
    {
        match number {
            0 => Ok(GatewayCloseCode::TimeOut),
            1 => Ok(GatewayCloseCode::UnknownCloseCode),
            4000 => Ok(GatewayCloseCode::UnknownError),
            4001 => Ok(GatewayCloseCode::UnknownOpcode),
            4002 => Ok(GatewayCloseCode::DecodeError),
            4003 => Ok(GatewayCloseCode::Unauthorized),
            4004 => Ok(GatewayCloseCode::AuthenticationError),
            4005 => Ok(GatewayCloseCode::RepeatedAuth),
            4007 => Ok(GatewayCloseCode::InvalidSeq),
            4008 => Ok(GatewayCloseCode::RateLimit),
            4009 => Ok(GatewayCloseCode::SessionTimeOut),
            4010 => Ok(GatewayCloseCode::InvalidShard),
            4011 => Ok(GatewayCloseCode::ShardRequired),
            4012 => Ok(GatewayCloseCode::DeprecatedAPI),
            4013 => Ok(GatewayCloseCode::InvalidIntent),
            4014 => Ok(GatewayCloseCode::DisallowedIntent),
            _ => Err(number),
        }
    }
}

/// Reading a close code back from its number gives the same close code.
pub proof fn lemma_gateway_close_code_number_round_trip(c: GatewayCloseCode)
    ensures
        spec_gateway_close_code_from_number(spec_gateway_close_code_number(c)) == Some(c),
{
}

/// A number read as a close code is that close code's number: no two
/// close codes share a number.
pub proof fn lemma_gateway_close_code_from_number_inverse(n: u16)
    ensures
        spec_gateway_close_code_from_number(n) matches Some(c) ==> spec_gateway_close_code_number(c) == n,
{
}

/// Each close code is numbered as Discord documents it (0 and 1 for
/// the library's own closes, 4000 to 4014 without 4006 for the gateway's), and
/// each documented number is read as its close code; no other number is read
/// as a close code.
pub proof fn lemma_gateway_close_code_documented_numbers()
    ensures
        spec_gateway_close_code_number(GatewayCloseCode::TimeOut) == 0,
        spec_gateway_close_code_number(GatewayCloseCode::UnknownCloseCode) == 1,
        spec_gateway_close_code_number(GatewayCloseCode::UnknownError) == 4000,
        spec_gateway_close_code_number(GatewayCloseCode::UnknownOpcode) == 4001,
        spec_gateway_close_code_number(GatewayCloseCode::DecodeError) == 4002,
        spec_gateway_close_code_number(GatewayCloseCode::Unauthorized) == 4003,
        spec_gateway_close_code_number(GatewayCloseCode::AuthenticationError) == 4004,
        spec_gateway_close_code_number(GatewayCloseCode::RepeatedAuth) == 4005,
        spec_gateway_close_code_number(GatewayCloseCode::InvalidSeq) == 4007,
        spec_gateway_close_code_number(GatewayCloseCode::RateLimit) == 4008,
        spec_gateway_close_code_number(GatewayCloseCode::SessionTimeOut) == 4009,
        spec_gateway_close_code_number(GatewayCloseCode::InvalidShard) == 4010,
        spec_gateway_close_code_number(GatewayCloseCode::ShardRequired) == 4011,
        spec_gateway_close_code_number(GatewayCloseCode::DeprecatedAPI) == 4012,
        spec_gateway_close_code_number(GatewayCloseCode::InvalidIntent) == 4013,
        spec_gateway_close_code_number(GatewayCloseCode::DisallowedIntent) == 4014,
        spec_gateway_close_code_from_number(0) == Some(GatewayCloseCode::TimeOut),
        spec_gateway_close_code_from_number(1) == Some(GatewayCloseCode::UnknownCloseCode),
        spec_gateway_close_code_from_number(4000) == Some(GatewayCloseCode::UnknownError),
        spec_gateway_close_code_from_number(4001) == Some(GatewayCloseCode::UnknownOpcode),
        spec_gateway_close_code_from_number(4002) == Some(GatewayCloseCode::DecodeError),
        spec_gateway_close_code_from_number(4003) == Some(GatewayCloseCode::Unauthorized),
        spec_gateway_close_code_from_number(4004) == Some(GatewayCloseCode::AuthenticationError),
        spec_gateway_close_code_from_number(4005) == Some(GatewayCloseCode::RepeatedAuth),
        spec_gateway_close_code_from_number(4007) == Some(GatewayCloseCode::InvalidSeq),
        spec_gateway_close_code_from_number(4008) == Some(GatewayCloseCode::RateLimit),
        spec_gateway_close_code_from_number(4009) == Some(GatewayCloseCode::SessionTimeOut),
        spec_gateway_close_code_from_number(4010) == Some(GatewayCloseCode::InvalidShard),
        spec_gateway_close_code_from_number(4011) == Some(GatewayCloseCode::ShardRequired),
        spec_gateway_close_code_from_number(4012) == Some(GatewayCloseCode::DeprecatedAPI),
        spec_gateway_close_code_from_number(4013) == Some(GatewayCloseCode::InvalidIntent),
        spec_gateway_close_code_from_number(4014) == Some(GatewayCloseCode::DisallowedIntent),
        forall|n: u16| !(n == 0 || n == 1 || n == 4000 || n == 4001 || n == 4002 || n == 4003 || n == 4004 || n == 4005 || n == 4007 || n == 4008 || n == 4009 || n == 4010 || n == 4011 || n == 4012 || n == 4013 || n == 4014) ==> spec_gateway_close_code_from_number(n) is None,
{
}

/// What a client does for each close code: reconnect after a timeout, an
/// unknown close, an unknown error or a rate limit; start a new session
/// after an invalid sequence or a session timeout; give up after a bad opcode,
/// a bad payload, a missing or failed authentication, a repeated
/// authentication, a bad or missing shard, an old API version or bad intents.
pub proof fn lemma_gateway_close_code_resolutions()
    ensures
        spec_resolve_gateway_close_code(GatewayCloseCode::TimeOut) == GatewayErrorResolve::Reconnect,
        spec_resolve_gateway_close_code(GatewayCloseCode::UnknownCloseCode) == GatewayErrorResolve::Reconnect,
        spec_resolve_gateway_close_code(GatewayCloseCode::UnknownError) == GatewayErrorResolve::Reconnect,
        spec_resolve_gateway_close_code(GatewayCloseCode::UnknownOpcode) == GatewayErrorResolve::Panic,
        spec_resolve_gateway_close_code(GatewayCloseCode::DecodeError) == GatewayErrorResolve::Panic,
        spec_resolve_gateway_close_code(GatewayCloseCode::Unauthorized) == GatewayErrorResolve::Panic,
        spec_resolve_gateway_close_code(GatewayCloseCode::AuthenticationError) == GatewayErrorResolve::Panic,
        spec_resolve_gateway_close_code(GatewayCloseCode::RepeatedAuth) == GatewayErrorResolve::Panic,
        spec_resolve_gateway_close_code(GatewayCloseCode::InvalidSeq) == GatewayErrorResolve::NewSession,
        spec_resolve_gateway_close_code(GatewayCloseCode::RateLimit) == GatewayErrorResolve::Reconnect,
        spec_resolve_gateway_close_code(GatewayCloseCode::SessionTimeOut) == GatewayErrorResolve::NewSession,
        spec_resolve_gateway_close_code(GatewayCloseCode::InvalidShard) == GatewayErrorResolve::Panic,
        spec_resolve_gateway_close_code(GatewayCloseCode::ShardRequired) == GatewayErrorResolve::Panic,
        spec_resolve_gateway_close_code(GatewayCloseCode::DeprecatedAPI) == GatewayErrorResolve::Panic,
        spec_resolve_gateway_close_code(GatewayCloseCode::InvalidIntent) == GatewayErrorResolve::Panic,
        spec_resolve_gateway_close_code(GatewayCloseCode::DisallowedIntent) == GatewayErrorResolve::Panic,
{
}

} // verus!
