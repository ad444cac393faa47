use hikaru::gateway::close_code::{close_code, GatewayErrorResolve};
use hikaru::gateway::gatewayclosecode::GatewayCloseCode;
use hikaru::gateway::gatewayclosecode::GatewayErrorResolve as OldResolve;

const ALL_CLOSE_CODES: [close_code; 17] = [
    close_code::TimeOut,
    close_code::UnknownCloseCode,
    close_code::Reconnect,
    close_code::UnknownError,
    close_code::UnknownOpcode,
    close_code::DecodeError,
    close_code::Unauthorized,
    close_code::AuthenticationError,
    close_code::RepeatedAuth,
    close_code::InvalidSeq,
    close_code::RateLimit,
    close_code::SessionTimeOut,
    close_code::InvalidShard,
    close_code::ShardRequired,
    close_code::DeprecatedAPI,
    close_code::InvalidIntent,
    close_code::DisallowedIntent,
];

#[test]
fn close_code_resolve_reconnects() {
    for c in [close_code::TimeOut, close_code::UnknownCloseCode, close_code::Reconnect,
              close_code::UnknownError, close_code::RateLimit] {
        assert_eq!(c.resolve(), GatewayErrorResolve::Reconnect);
    }
}

#[test]
fn close_code_resolve_new_session() {
    assert_eq!(close_code::InvalidSeq.resolve(), GatewayErrorResolve::NewSession);
    assert_eq!(close_code::SessionTimeOut.resolve(), GatewayErrorResolve::NewSession);
}

#[test]
fn close_code_resolve_panics_on_the_rest() {
    for c in [close_code::UnknownOpcode, close_code::DecodeError, close_code::Unauthorized,
              close_code::AuthenticationError, close_code::RepeatedAuth, close_code::InvalidShard,
              close_code::ShardRequired, close_code::DeprecatedAPI, close_code::InvalidIntent,
              close_code::DisallowedIntent] {
        assert_eq!(c.resolve(), GatewayErrorResolve::Panic);
    }
}

#[test]
fn close_code_numbers() {
    assert_eq!(close_code::TimeOut.number(), 0);
    assert_eq!(close_code::UnknownCloseCode.number(), 1);
    assert_eq!(close_code::Reconnect.number(), 2);
    assert_eq!(close_code::UnknownError.number(), 4000);
    assert_eq!(close_code::RepeatedAuth.number(), 4005);
    assert_eq!(close_code::InvalidSeq.number(), 4007);
    assert_eq!(close_code::DisallowedIntent.number(), 4014);
}

#[test]
fn close_code_number_round_trip() {
    for c in ALL_CLOSE_CODES {
        assert_eq!(close_code::try_from_primitive(c.number()), Ok(c));
    }
}

#[test]
fn close_code_from_numbers() {
    assert_eq!(close_code::try_from_primitive(4004), Ok(close_code::AuthenticationError));
    assert_eq!(close_code::try_from_primitive(4009), Ok(close_code::SessionTimeOut));
    assert_eq!(close_code::try_from_primitive(4006), Err(4006));
    assert_eq!(close_code::try_from_primitive(3), Err(3));
    assert_eq!(close_code::try_from_primitive(1000), Err(1000));
    assert_eq!(close_code::try_from_primitive(4015), Err(4015));
}

#[test]
fn gateway_close_code_resolve() {
    assert_eq!(GatewayCloseCode::TimeOut.resolve(), OldResolve::Reconnect);
    assert_eq!(GatewayCloseCode::UnknownCloseCode.resolve(), OldResolve::Reconnect);
    assert_eq!(GatewayCloseCode::UnknownError.resolve(), OldResolve::Reconnect);
    assert_eq!(GatewayCloseCode::RateLimit.resolve(), OldResolve::Reconnect);
    assert_eq!(GatewayCloseCode::InvalidSeq.resolve(), OldResolve::NewSession);
    assert_eq!(GatewayCloseCode::SessionTimeOut.resolve(), OldResolve::NewSession);
    assert_eq!(GatewayCloseCode::Unauthorized.resolve(), OldResolve::Panic);
    assert_eq!(GatewayCloseCode::DisallowedIntent.resolve(), OldResolve::Panic);
}

#[test]
fn gateway_close_code_numbers() {
    assert_eq!(GatewayCloseCode::TimeOut.number(), 0);
    assert_eq!(GatewayCloseCode::UnknownCloseCode.number(), 1);
    assert_eq!(GatewayCloseCode::UnknownError.number(), 4000);
    assert_eq!(GatewayCloseCode::InvalidIntent.number(), 4013);
    assert_eq!(GatewayCloseCode::try_from_primitive(4013), Ok(GatewayCloseCode::InvalidIntent));
    assert_eq!(GatewayCloseCode::try_from_primitive(2), Err(2));
    assert_eq!(GatewayCloseCode::try_from_primitive(4006), Err(4006));
}
