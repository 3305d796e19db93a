//! Encoding what a procedure returned as the answer to its call.

use crate::types::{answer_view, Error, ErrorCode, ErrorView};
use vstd::prelude::*;
use vstd::string::*;

verus! {

/// The one server error number under which every failure of a procedure is
/// reported.
pub const SERVER_ERROR: i64 = 8;

/// The error that carries the failure payload of a procedure.
pub open spec fn failure_error(payload: serde_json::Value) -> ErrorView {
    ErrorView {
        code: ErrorCode::ServerError(SERVER_ERROR),
        message: "Server error."@,
        data: Some(payload),
    }
}

/// Turns the encoded return value of a procedure into the answer to a call.
///
/// A procedure that can fail returns a `Result` of two encoded payloads: the
/// success payload becomes the answer, the failure payload travels as the
/// data of a server error.  Any other encoded return value is the answer.
pub trait ToRPCResult: Sized {
    /// The answer that `to_result` gives.
    spec fn rpc_result(self) -> Result<serde_json::Value, ErrorView>;

    fn to_result(self) -> (answer: Result<serde_json::Value, Error>)
        ensures
            answer_view(answer) == self.rpc_result(),
    ;
}

impl ToRPCResult for Result<serde_json::Value, serde_json::Value> {
    open spec fn rpc_result(self) -> Result<serde_json::Value, ErrorView> {
        match self {
            Ok(payload) => Ok(payload),
            Err(payload) => Err(failure_error(payload)),
        }
    }

    fn to_result(self) -> (answer: Result<serde_json::Value, Error>) {
        match self {
            Ok(payload) => Ok(payload),
            Err(payload) => Err(
                Error {
                    code: ErrorCode::ServerError(SERVER_ERROR),
                    message: String::from_str("Server error."),
                    data: Some(payload),
                },
            ),
        }
    }
}

impl ToRPCResult for serde_json::Value {
    open spec fn rpc_result(self) -> Result<serde_json::Value, ErrorView> {
        Ok(self)
    }

    fn to_result(self) -> (answer: Result<serde_json::Value, Error>) {
        Ok(self)
    }
}

} // verus!
