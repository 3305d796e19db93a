//! Encoding what a procedure returned, and the protocol's own errors.

use jsonrpc_interface::{Error, ErrorCode, ToRPCResult, SERVER_ERROR};
use serde_json::Value;

#[test]
fn success_payload_is_the_answer() {
    let returned: Result<Value, Value> = Ok(Value::from(1));
    assert_eq!(returned.to_result(), Ok(Value::from(1)));
}

#[test]
fn failure_payload_travels_as_server_error() {
    let returned: Result<Value, Value> = Err(Value::from("tada!"));
    assert_eq!(
        returned.to_result(),
        Err(Error {
            code: ErrorCode::ServerError(8),
            message: "Server error.".to_string(),
            data: Some(Value::from("tada!")),
        })
    );
    assert_eq!(SERVER_ERROR, 8);
}

#[test]
fn failure_payload_round_trips() {
    let failure: Result<isize, String> = Err("tada!".to_string());
    let encoded: Result<Value, Value> = match &failure {
        Ok(payload) => Ok(serde_json::to_value(payload).unwrap()),
        Err(payload) => Err(serde_json::to_value(payload).unwrap()),
    };
    let error = encoded.to_result().unwrap_err();
    let decoded: String = serde_json::from_value(error.data.unwrap()).unwrap();
    assert_eq!(Err(decoded), failure);
}

#[test]
fn any_other_value_is_the_answer() {
    assert_eq!(Value::from("hello").to_result(), Ok(Value::from("hello")));
    let unit = serde_json::to_value(()).unwrap();
    assert_eq!(unit.to_result(), Ok(Value::Null));
}

#[test]
fn error_codes_have_their_numbers() {
    assert_eq!(ErrorCode::ParseError.code(), -32700);
    assert_eq!(ErrorCode::InvalidRequest.code(), -32600);
    assert_eq!(ErrorCode::MethodNotFound.code(), -32601);
    assert_eq!(ErrorCode::InvalidParams.code(), -32602);
    assert_eq!(ErrorCode::InternalError.code(), -32603);
    assert_eq!(ErrorCode::ServerError(8).code(), 8);
    assert_eq!(ErrorCode::ServerError(-32000).code(), -32000);
}

#[test]
fn error_codes_have_their_descriptions() {
    assert_eq!(ErrorCode::ParseError.description(), "Parse error");
    assert_eq!(ErrorCode::InvalidRequest.description(), "Invalid request");
    assert_eq!(ErrorCode::MethodNotFound.description(), "Method not found");
    assert_eq!(ErrorCode::InvalidParams.description(), "Invalid params");
    assert_eq!(ErrorCode::InternalError.description(), "Internal error");
    assert_eq!(ErrorCode::ServerError(8).description(), "Server error");
}

#[test]
fn standard_errors() {
    assert_eq!(
        Error::invalid_request(),
        Error { code: ErrorCode::InvalidRequest, message: "Invalid request".into(), data: None }
    );
    assert_eq!(
        Error::method_not_found(),
        Error { code: ErrorCode::MethodNotFound, message: "Method not found".into(), data: None }
    );
    assert_eq!(
        Error::new(ErrorCode::InternalError),
        Error { code: ErrorCode::InternalError, message: "Internal error".into(), data: None }
    );
    assert_eq!(
        Error::invalid_params("no".to_string()),
        Error { code: ErrorCode::InvalidParams, message: "no".into(), data: None }
    );
}
