use vstd::prelude::*;

verus! {

use vstd::std_specs::convert::FromSpecImpl;

/// Errors of decoding gateway opcodes and of the REST client.
#[derive(Debug)]
pub enum Error {
    ReqwestError(reqwest::Error),
    RestApiError(serde_json::Value),
    TungsteniteError(async_tungstenite::tungstenite::Error),
    SerdeError(serde_json::Error),
    Text(String),
}

impl From<reqwest::Error> for Error {
    fn from(e: reqwest::Error) -> (r: Error) {
        Error::ReqwestError(e)
    }
}

impl FromSpecImpl<reqwest::Error> for Error {
    open spec fn obeys_from_spec() -> bool {
        true
    }

    open spec fn from_spec(e: reqwest::Error) -> Error {
        Error::ReqwestError(e)
    }
}

impl From<async_tungstenite::tungstenite::Error> for Error {
    fn from(e: async_tungstenite::tungstenite::Error) -> (r: Error) {
        Error::TungsteniteError(e)
    }
}

impl FromSpecImpl<async_tungstenite::tungstenite::Error> for Error {
    open spec fn obeys_from_spec() -> bool {
        true
    }

    open spec fn from_spec(e: async_tungstenite::tungstenite::Error) -> Error {
        Error::TungsteniteError(e)
    }
}

impl From<serde_json::Error> for Error {
    fn from(e: serde_json::Error) -> (r: Error) {
        Error::SerdeError(e)
    }
}

impl FromSpecImpl<serde_json::Error> for Error {
    open spec fn obeys_from_spec() -> bool {
        true
    }

    open spec fn from_spec(e: serde_json::Error) -> Error {
        Error::SerdeError(e)
    }
}

} // verus!
