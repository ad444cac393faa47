//! Types of other crates that the library's errors carry. Values of them are
//! only held and handed on; nothing in the library looks inside one.
use vstd::prelude::*;
use reqwest::Error as ReqwestError;
use async_tungstenite::tungstenite::Error as TungsteniteError;
use serde_json::Error as SerdeError;
use std::io::Error as StdError;

verus! {

/// `reqwest::Error`, the error of an HTTP request.
#[verifier::external_type_specification]
#[verifier::external_body]
pub struct ExReqwestError(ReqwestError);

/// `tungstenite::Error`, the error of a WebSocket connection.
#[verifier::external_type_specification]
#[verifier::external_body]
pub struct ExTungsteniteError(TungsteniteError);

/// `serde_json::Error`, the error of reading or writing JSON.
#[verifier::external_type_specification]
#[verifier::external_body]
pub struct ExSerdeError(SerdeError);

/// `serde_json::Value`, a JSON document.
#[verifier::external_type_specification]
#[verifier::external_body]
pub struct ExJsonValue(serde_json::Value);

/// `std::io::Error`, the error of an I/O operation.
#[verifier::external_type_specification]
#[verifier::external_body]
pub struct ExIoError(StdError);

} // verus!
