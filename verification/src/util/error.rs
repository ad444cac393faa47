use vstd::prelude::*;

verus! {

use crate::gateway::close_code::close_code;
use vstd::std_specs::convert::FromSpecImpl;

/// Errors of the gateway client.
#[allow(non_camel_case_types)]
#[derive(Debug)]
pub enum Error {
    ReqwestError(reqwest::Error),
    RestApiError(serde_json::Value),
    TungsteniteError(async_tungstenite::tungstenite::Error),
    SerdeError(serde_json::Error),
    StdError(std::io::Error),
    AnsiTermError(u32),
    /// A close code number that names no close code.
    Invalidclose_code(u16),
    /// The gateway closed the connection with this code.
    GatewayError(close_code),
    Text(String),
}

impl From<u32> for Error {
    fn from(e: u32) -> (r: Error) {
        Error::AnsiTermError(e)
    }
}

impl FromSpecImpl<u32> for Error {
    open spec fn obeys_from_spec() -> bool {
        true
    }

    open spec fn from_spec(e: u32) -> Error {
        Error::AnsiTermError(e)
    }
}

impl From<std::io::Error> for Error {
    fn from(e: std::io::Error) -> (r: Error) {
        Error::StdError(e)
    }
}

impl FromSpecImpl<std::io::Error> for Error {
    open spec fn obeys_from_spec() -> bool {
        true
    }

    open spec fn from_spec(e: std::io::Error) -> Error {
        Error::StdError(e)
    }
}

impl From<reqwest::Error> for Error {
    fn from(e: reqwest::Error) -> (r: Error) {
        Error::ReqwestError(e)
    }
}

impl FromSpecImpl<reqwest::Error> for Error {
    open spec fn obeys_from_spec() -> bool {
        true
    }

    open spec fn from_spec(e: reqwest::Error) -> Error {
        Error::ReqwestError(e)
    }
}

impl From<async_tungstenite::tungstenite::Error> for Error {
    fn from(e: async_tungstenite::tungstenite::Error) -> (r: Error) {
        Error::TungsteniteError(e)
    }
}

impl FromSpecImpl<async_tungstenite::tungstenite::Error> for Error {
    open spec fn obeys_from_spec() -> bool {
        true
    }

    open spec fn from_spec(e: async_tungstenite::tungstenite::Error) -> Error {
        Error::TungsteniteError(e)
    }
}

impl From<serde_json::Error> for Error {
    fn from(e: serde_json::Error) -> (r: Error) {
        Error::SerdeError(e)
    }
}

impl FromSpecImpl<serde_json::Error> for Error {
    open spec fn obeys_from_spec() -> bool {
        true
    }

    open spec fn from_spec(e: serde_json::Error) -> Error {
        Error::SerdeError(e)
    }
}

} // verus!
