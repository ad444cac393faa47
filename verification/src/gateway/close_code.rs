use vstd::prelude::*;

verus! {

/// Close codes a Discord gateway connection can end with.
///
/// The first three are the library's own (a normal close, a close without a
/// known code, and a request to reconnect); the rest are the codes that
/// Discord documents, each numbered as on the wire.
#[allow(non_camel_case_types)]
#[derive(Debug, PartialEq, Eq, Structural, Clone, Copy)]
pub enum close_code {
    TimeOut,
    UnknownCloseCode,
    Reconnect,
    UnknownError,
    UnknownOpcode,
    DecodeError,
    Unauthorized,
    AuthenticationError,
    RepeatedAuth,
    InvalidSeq,
    RateLimit,
    SessionTimeOut,
    InvalidShard,
    ShardRequired,
    DeprecatedAPI,
    InvalidIntent,
    DisallowedIntent,
}

/// What a client does about a closed gateway connection.
#[derive(Debug, PartialEq, Eq, Structural, Clone, Copy)]
pub enum GatewayErrorResolve {
    Reconnect,
    NewSession,
    Panic,
}

/// The number that stands for a close code.
pub open spec fn spec_close_code_number(c: close_code) -> u16 {
    match c {
        close_code::TimeOut => 0,
        close_code::UnknownCloseCode => 1,
        close_code::Reconnect => 2,
        close_code::UnknownError => 4000,
        close_code::UnknownOpcode => 4001,
        close_code::DecodeError => 4002,
        close_code::Unauthorized => 4003,
        close_code::AuthenticationError => 4004,
        close_code::RepeatedAuth => 4005,
        close_code::InvalidSeq => 4007,
        close_code::RateLimit => 4008,
        close_code::SessionTimeOut => 4009,
        close_code::InvalidShard => 4010,
        close_code::ShardRequired => 4011,
        close_code::DeprecatedAPI => 4012,
        close_code::InvalidIntent => 4013,
        close_code::DisallowedIntent => 4014,
    }
}

/// The close code that a number stands for, if any.
pub open spec fn spec_close_code_from_number(n: u16) -> Option<close_code> {
    if n == 0 { Some(close_code::TimeOut) }
    else if n == 1 { Some(close_code::UnknownCloseCode) }
    else if n == 2 { Some(close_code::Reconnect) }
    else if n == 4000 { Some(close_code::UnknownError) }
    else if n == 4001 { Some(close_code::UnknownOpcode) }
    else if n == 4002 { Some(close_code::DecodeError) }
    else if n == 4003 { Some(close_code::Unauthorized) }
    else if n == 4004 { Some(close_code::AuthenticationError) }
    else if n == 4005 { Some(close_code::RepeatedAuth) }
    else if n == 4007 { Some(close_code::InvalidSeq) }
    else if n == 4008 { Some(close_code::RateLimit) }
    else if n == 4009 { Some(close_code::SessionTimeOut) }
    else if n == 4010 { Some(close_code::InvalidShard) }
    else if n == 4011 { Some(close_code::ShardRequired) }
    else if n == 4012 { Some(close_code::DeprecatedAPI) }
    else if n == 4013 { Some(close_code::InvalidIntent) }
    else if n == 4014 { Some(close_code::DisallowedIntent) }
    else { None }
}

/// How a client reacts to a close code: reconnect on a timeout, an unknown
/// close, a reconnect request, an unknown error or a rate limit; start a new
/// session on an invalid sequence or a session timeout; give up on anything
/// else.
pub open spec fn spec_resolve(c: close_code) -> GatewayErrorResolve {
    if c == close_code::TimeOut || c == close_code::UnknownCloseCode || c == close_code::Reconnect
        || c == close_code::UnknownError || c == close_code::RateLimit {
        GatewayErrorResolve::Reconnect
    } else if c == close_code::InvalidSeq || c == close_code::SessionTimeOut {
        GatewayErrorResolve::NewSession
    } else {
        GatewayErrorResolve::Panic
    }
}

impl close_code {
    /// How a client reacts to this close code.
    pub fn resolve(&self) -> (r: GatewayErrorResolve)
        ensures
            r == spec_resolve(*self),
    {
        match self {
            close_code::TimeOut => GatewayErrorResolve::Reconnect,
            close_code::UnknownCloseCode => GatewayErrorResolve::Reconnect,
            close_code::Reconnect => GatewayErrorResolve::Reconnect,
            close_code::UnknownError => GatewayErrorResolve::Reconnect,
            close_code::RateLimit => GatewayErrorResolve::Reconnect,
            close_code::InvalidSeq => GatewayErrorResolve::NewSession,
            close_code::SessionTimeOut => GatewayErrorResolve::NewSession,
            _ => GatewayErrorResolve::Panic,
        }
    }

    /// The number of this close code.
    pub fn number(&self) -> (n: u16)
        ensures
            n == spec_close_code_number(*self),
    {
        match self {
            close_code::TimeOut => 0,
            close_code::UnknownCloseCode => 1,
            close_code::Reconnect => 2,
            close_code::UnknownError => 4000,
            close_code::UnknownOpcode => 4001,
            close_code::DecodeError => 4002,
            close_code::Unauthorized => 4003,
            close_code::AuthenticationError => 4004,
            close_code::RepeatedAuth => 4005,
            close_code::InvalidSeq => 4007,
            close_code::RateLimit => 4008,
            close_code::SessionTimeOut => 4009,
            close_code::InvalidShard => 4010,
            close_code::ShardRequired => 4011,
            close_code::DeprecatedAPI => 4012,
            close_code::InvalidIntent => 4013,
            close_code::DisallowedIntent => 4014,
        }
    }

    /// The close code with the given number; the number itself back when
    /// no close code has it.
    pub fn try_from_primitive(number: u16) -> (r: Result<close_code, u16>)
        ensures
            match spec_close_code_from_number(number) {
                Some(c) => r == Ok::<close_code, u16>(c),
                None => r == Err::<close_code, u16>(number),
            },
    {
        match number {
            0 => Ok(close_code::TimeOut),
            1 => Ok(close_code::UnknownCloseCode),
            2 => Ok(close_code::Reconnect),
            4000 => Ok(close_code::UnknownError),
            4001 => Ok(close_code::UnknownOpcode),
            4002 => Ok(close_code::DecodeError),
            4003 => Ok(close_code::Unauthorized),
            4004 => Ok(close_code::AuthenticationError),
            4005 => Ok(close_code::RepeatedAuth),
            4007 => Ok(close_code::InvalidSeq),
            4008 => Ok(close_code::RateLimit),
            4009 => Ok(close_code::SessionTimeOut),
            4010 => Ok(close_code::InvalidShard),
            4011 => Ok(close_code::ShardRequired),
            4012 => Ok(close_code::DeprecatedAPI),
            4013 => Ok(close_code::InvalidIntent),
            4014 => Ok(close_code::DisallowedIntent),
            _ => Err(number),
        }
    }
}

/// Reading a close code back from its number gives the same close code.
pub proof fn lemma_close_code_number_round_trip(c: close_code)
    ensures
        spec_close_code_from_number(spec_close_code_number(c)) == Some(c),
{
}

/// A number read as a close code is that close code's number: no two
/// close codes share a number.
pub proof fn lemma_close_code_from_number_inverse(n: u16)
    ensures
        spec_close_code_from_number(n) matches Some(c) ==> spec_close_code_number(c) == n,
{
}

/// Each close code is numbered as Discord documents it (0, 1 and 2 for
/// the library's own closes, 4000 to 4014 without 4006 for the gateway's), and
/// each documented number is read as its close code; no other number is read
/// as a close code.
pub proof fn lemma_close_code_documented_numbers()
    ensures
        spec_close_code_number(close_code::TimeOut) == 0,
        spec_close_code_number(close_code::UnknownCloseCode) == 1,
        spec_close_code_number(close_code::Reconnect) == 2,
        spec_close_code_number(close_code::UnknownError) == 4000,
        spec_close_code_number(close_code::UnknownOpcode) == 4001,
        spec_close_code_number(close_code::DecodeError) == 4002,
        spec_close_code_number(close_code::Unauthorized) == 4003,
        spec_close_code_number(close_code::AuthenticationError) == 4004,
        spec_close_code_number(close_code::RepeatedAuth) == 4005,
        spec_close_code_number(close_code::InvalidSeq) == 4007,
        spec_close_code_number(close_code::RateLimit) == 4008,
        spec_close_code_number(close_code::SessionTimeOut) == 4009,
        spec_close_code_number(close_code::InvalidShard) == 4010,
        spec_close_code_number(close_code::ShardRequired) == 4011,
        spec_close_code_number(close_code::DeprecatedAPI) == 4012,
        spec_close_code_number(close_code::InvalidIntent) == 4013,
        spec_close_code_number(close_code::DisallowedIntent) == 4014,
        spec_close_code_from_number(0) == Some(close_code::TimeOut),
        spec_close_code_from_number(1) == Some(close_code::UnknownCloseCode),
        spec_close_code_from_number(2) == Some(close_code::Reconnect),
        spec_close_code_from_number(4000) == Some(close_code::UnknownError),
        spec_close_code_from_number(4001) == Some(close_code::UnknownOpcode),
        spec_close_code_from_number(4002) == Some(close_code::DecodeError),
        spec_close_code_from_number(4003) == Some(close_code::Unauthorized),
        spec_close_code_from_number(4004) == Some(close_code::AuthenticationError),
        spec_close_code_from_number(4005) == Some(close_code::RepeatedAuth),
        spec_close_code_from_number(4007) == Some(close_code::InvalidSeq),
        spec_close_code_from_number(4008) == Some(close_code::RateLimit),
        spec_close_code_from_number(4009) == Some(close_code::SessionTimeOut),
        spec_close_code_from_number(4010) == Some(close_code::InvalidShard),
        spec_close_code_from_number(4011) == Some(close_code::ShardRequired),
        spec_close_code_from_number(4012) == Some(close_code::DeprecatedAPI),
        spec_close_code_from_number(4013) == Some(close_code::InvalidIntent),
        spec_close_code_from_number(4014) == Some(close_code::DisallowedIntent),
        forall|n: u16| !(n == 0 || n == 1 || n == 2 || n == 4000 || n == 4001 || n == 4002 || n == 4003 || n == 4004 || n == 4005 || n == 4007 || n == 4008 || n == 4009 || n == 4010 || n == 4011 || n == 4012 || n == 4013 || n == 4014) ==> spec_close_code_from_number(n) is None,
{
}

/// What a client does for each close code: reconnect after a timeout, an
/// unknown close, a reconnect request, an unknown error or a rate limit; start a new session
/// after an invalid sequence or a session timeout; give up after a bad opcode,
/// a bad payload, a missing or failed authentication, a repeated
/// authentication, a bad or missing shard, an old API version or bad intents.
pub proof fn lemma_close_code_resolutions()
    ensures
        spec_resolve(close_code::TimeOut) == GatewayErrorResolve::Reconnect,
        spec_resolve(close_code::UnknownCloseCode) == GatewayErrorResolve::Reconnect,
        spec_resolve(close_code::Reconnect) == GatewayErrorResolve::Reconnect,
        spec_resolve(close_code::UnknownError) == GatewayErrorResolve::Reconnect,
        spec_resolve(close_code::UnknownOpcode) == GatewayErrorResolve::Panic,
        spec_resolve(close_code::DecodeError) == GatewayErrorResolve::Panic,
        spec_resolve(close_code::Unauthorized) == GatewayErrorResolve::Panic,
        spec_resolve(close_code::AuthenticationError) == GatewayErrorResolve::Panic,
        spec_resolve(close_code::RepeatedAuth) == GatewayErrorResolve::Panic,
        spec_resolve(close_code::InvalidSeq) == GatewayErrorResolve::NewSession,
        spec_resolve(close_code::RateLimit) == GatewayErrorResolve::Reconnect,
        spec_resolve(close_code::SessionTimeOut) == GatewayErrorResolve::NewSession,
        spec_resolve(close_code::InvalidShard) == GatewayErrorResolve::Panic,
        spec_resolve(close_code::ShardRequired) == GatewayErrorResolve::Panic,
        spec_resolve(close_code::DeprecatedAPI) == GatewayErrorResolve::Panic,
        spec_resolve(close_code::InvalidIntent) == GatewayErrorResolve::Panic,
        spec_resolve(close_code::DisallowedIntent) == GatewayErrorResolve::Panic,
{
}

} // verus!
