//! The wire types of JSON-RPC 2.0 and their mathematical views.
//!
//! Each type that owns text or a collection has a view in which text is a
//! `Seq<char>`, a list is a `Seq` and a JSON object is a `Map`.  The contracts
//! of the engine are stated over these views.

use crate::value::{map_entries, JsonMap};
use vstd::prelude::*;
use vstd::string::*;

verus! {

/// Protocol version tag carried by calls and outputs.
#[derive(Clone, Copy, Debug, PartialEq, Eq, Hash, Structural)]
pub enum Version {
    /// JSON-RPC 2.0.
    V2,
}

/// Correlation identifier of a call, echoed verbatim in its output.
#[derive(Debug, PartialEq, Eq, Hash)]
pub enum Id {
    /// The JSON `null` identifier.
    Null,
    /// A numeric identifier.
    Num(u64),
    /// A textual identifier.
    Str(String),
}

/// View of an [`Id`].
pub enum IdView {
    Null,
    Num(u64),
    Str(Seq<char>),
}

impl View for Id {
    type V = IdView;

    open spec fn view(&self) -> IdView {
        match self {
            Id::Null => IdView::Null,
            Id::Num(n) => IdView::Num(*n),
            Id::Str(s) => IdView::Str(s@),
        }
    }
}

impl Clone for Id {
    fn clone(&self) -> (copy: Id)
        ensures
            copy@ == self@,
    {
        match self {
            Id::Null => Id::Null,
            Id::Num(number) => Id::Num(*number),
            Id::Str(text) => Id::Str(text.clone()),
        }
    }
}

/// The `params` member of a call, exactly as received.
#[derive(Debug, PartialEq)]
pub enum Params {
    /// The member was omitted or `null`.
    Absent,
    /// A JSON array: arguments by position.
    Positional(Vec<serde_json::Value>),
    /// A JSON object: arguments by name.
    Named(JsonMap),
}

/// View of a [`Params`].
pub enum ParamsView {
    Absent,
    Positional(Seq<serde_json::Value>),
    Named(Map<Seq<char>, serde_json::Value>),
}

impl View for Params {
    type V = ParamsView;

    open spec fn view(&self) -> ParamsView {
        match self {
            Params::Absent => ParamsView::Absent,
            Params::Positional(values) => ParamsView::Positional(values@),
            Params::Named(members) => ParamsView::Named(map_entries(*members)),
        }
    }
}

/// The protocol's error codes.
#[derive(Clone, Copy, Debug, PartialEq, Eq, Structural)]
pub enum ErrorCode {
    /// Invalid JSON was received.
    ParseError,
    /// The JSON sent is not a valid request object.
    InvalidRequest,
    /// The method does not exist.
    MethodNotFound,
    /// Invalid method parameters.
    InvalidParams,
    /// Internal error of the server.
    InternalError,
    /// A server-defined error with its own number.
    ServerError(i64),
}

impl ErrorCode {
    /// The number that stands on the wire for this code.
    pub open spec fn spec_code(self) -> int {
        match self {
            ErrorCode::ParseError => -32700,
            ErrorCode::InvalidRequest => -32600,
            ErrorCode::MethodNotFound => -32601,
            ErrorCode::InvalidParams => -32602,
            ErrorCode::InternalError => -32603,
            ErrorCode::ServerError(code) => code as int,
        }
    }

    /// The standard message of this code.
    pub open spec fn spec_description(self) -> Seq<char> {
        match self {
            ErrorCode::ParseError => "Parse error"@,
            ErrorCode::InvalidRequest => "Invalid request"@,
            ErrorCode::MethodNotFound => "Method not found"@,
            ErrorCode::InvalidParams => "Invalid params"@,
            ErrorCode::InternalError => "Internal error"@,
            ErrorCode::ServerError(_) => "Server error"@,
        }
    }

    /// The number that stands on the wire for this code.
    pub fn code(&self) -> (number: i64)
        ensures
            number == self.spec_code(),
    {
        match *self {
            ErrorCode::ParseError => -32700,
            ErrorCode::InvalidRequest => -32600,
            ErrorCode::MethodNotFound => -32601,
            ErrorCode::InvalidParams => -32602,
            ErrorCode::InternalError => -32603,
            ErrorCode::ServerError(code) => code,
        }
    }

    /// The standard message of this code.
    pub fn description(&self) -> (text: String)
        ensures
            text@ == self.spec_description(),
    {
        let text = match *self {
            ErrorCode::ParseError => "Parse error",
            ErrorCode::InvalidRequest => "Invalid request",
            ErrorCode::MethodNotFound => "Method not found",
            ErrorCode::InvalidParams => "Invalid params",
            ErrorCode::InternalError => "Internal error",
            ErrorCode::ServerError(_) => "Server error",
        };
        String::from_str(text)
    }
}

/// The protocol's error object.
#[derive(Debug, PartialEq)]
pub struct Error {
    /// What kind of error occurred.
    pub code: ErrorCode,
    /// A short description of the error.
    pub message: String,
    /// Additional information about the error, if any.
    pub data: Option<serde_json::Value>,
}

/// View of an [`Error`].
pub struct ErrorView {
    pub code: ErrorCode,
    pub message: Seq<char>,
    pub data: Option<serde_json::Value>,
}

impl View for Error {
    type V = ErrorView;

    open spec fn view(&self) -> ErrorView {
        ErrorView { code: self.code, message: self.message@, data: self.data }
    }
}

impl ErrorView {
    /// The error of `code` with its standard message and no data.
    pub open spec fn standard(code: ErrorCode) -> ErrorView {
        ErrorView { code, message: code.spec_description(), data: None }
    }

    /// The error that reports unusable parameters with the given message.
    pub open spec fn invalid_params(message: Seq<char>) -> ErrorView {
        ErrorView { code: ErrorCode::InvalidParams, message, data: None }
    }
}

impl Error {
    /// The error of `code` with its standard message and no data.
    pub fn new(code: ErrorCode) -> (error: Error)
        ensures
            error@ == ErrorView::standard(code),
    {
        Error { message: code.description(), code, data: None }
    }

    /// The error for a message that is not a valid request.
    pub fn invalid_request() -> (error: Error)
        ensures
            error@ == ErrorView::standard(ErrorCode::InvalidRequest),
    {
        Error::new(ErrorCode::InvalidRequest)
    }

    /// The error for a method that is not registered.
    pub fn method_not_found() -> (error: Error)
        ensures
            error@ == ErrorView::standard(ErrorCode::MethodNotFound),
    {
        Error::new(ErrorCode::MethodNotFound)
    }

    /// The error for parameters that cannot be used, with a message of the
    /// caller's choice.
    pub fn invalid_params(message: String) -> (error: Error)
        ensures
            error@ == ErrorView::invalid_params(message@),
    {
        Error { code: ErrorCode::InvalidParams, message, data: None }
    }
}

/// A call that expects an answer.
#[derive(Debug, PartialEq)]
pub struct MethodCall {
    /// The protocol version the caller named, if any.
    pub jsonrpc: Option<Version>,
    /// The name of the procedure to invoke.
    pub method: String,
    /// The parameter payload.
    pub params: Params,
    /// The identifier to echo in the output.
    pub id: Id,
}

/// View of a [`MethodCall`].
pub struct MethodCallView {
    pub jsonrpc: Option<Version>,
    pub method: Seq<char>,
    pub params: ParamsView,
    pub id: IdView,
}

impl View for MethodCall {
    type V = MethodCallView;

    open spec fn view(&self) -> MethodCallView {
        MethodCallView {
            jsonrpc: self.jsonrpc,
            method: self.method@,
            params: self.params@,
            id: self.id@,
        }
    }
}

/// A call without identifier: it is carried out and never answered.
#[derive(Debug, PartialEq)]
pub struct Notification {
    /// The protocol version the caller named, if any.
    pub jsonrpc: Option<Version>,
    /// The name of the procedure to invoke.
    pub method: String,
    /// The parameter payload.
    pub params: Params,
}

/// View of a [`Notification`].
pub struct NotificationView {
    pub jsonrpc: Option<Version>,
    pub method: Seq<char>,
    pub params: ParamsView,
}

impl View for Notification {
    type V = NotificationView;

    open spec fn view(&self) -> NotificationView {
        NotificationView { jsonrpc: self.jsonrpc, method: self.method@, params: self.params@ }
    }
}

/// One inbound call.
#[derive(Debug, PartialEq)]
pub enum Call {
    /// A call that expects an answer.
    MethodCall(MethodCall),
    /// A call that must not be answered.
    Notification(Notification),
    /// A malformed call, with the identifier that could be salvaged.
    Invalid {
        /// The identifier of the malformed call, `Id::Null` if none was found.
        id: Id,
    },
}

/// View of a [`Call`].
pub enum CallView {
    MethodCall(MethodCallView),
    Notification(NotificationView),
    Invalid { id: IdView },
}

impl View for Call {
    type V = CallView;

    open spec fn view(&self) -> CallView {
        match self {
            Call::MethodCall(call) => CallView::MethodCall(call@),
            Call::Notification(note) => CallView::Notification(note@),
            Call::Invalid { id } => CallView::Invalid { id: id@ },
        }
    }
}

/// An inbound message: one call or a batch of calls.
#[derive(Debug, PartialEq)]
pub enum Request {
    /// A single call.
    Single(Call),
    /// A batch of calls, possibly empty.
    Batch(Vec<Call>),
}

/// View of a [`Request`].
pub enum RequestView {
    Single(CallView),
    Batch(Seq<CallView>),
}

/// The views of a list of calls, in order.
pub open spec fn call_views(calls: Seq<Call>) -> Seq<CallView> {
    Seq::new(calls.len(), |i: int| calls[i]@)
}

impl View for Request {
    type V = RequestView;

    open spec fn view(&self) -> RequestView {
        match self {
            Request::Single(call) => RequestView::Single(call@),
            Request::Batch(calls) => RequestView::Batch(call_views(calls@)),
        }
    }
}

/// The output of a call that succeeded.
#[derive(Debug, PartialEq)]
pub struct Success {
    /// The protocol version of the call.
    pub jsonrpc: Option<Version>,
    /// What the procedure returned.
    pub result: serde_json::Value,
    /// The identifier of the call.
    pub id: Id,
}

/// The output of a call that failed.
#[derive(Debug, PartialEq)]
pub struct Failure {
    /// The protocol version of the call.
    pub jsonrpc: Option<Version>,
    /// Why the call failed.
    pub error: Error,
    /// The identifier of the call.
    pub id: Id,
}

/// The output of one call.
#[derive(Debug, PartialEq)]
pub enum Output {
    /// The call succeeded.
    Success(Success),
    /// The call failed.
    Failure(Failure),
}

/// View of an [`Output`].
pub enum OutputView {
    Success { jsonrpc: Option<Version>, result: serde_json::Value, id: IdView },
    Failure { jsonrpc: Option<Version>, error: ErrorView, id: IdView },
}

impl OutputView {
    /// The identifier that the output echoes.
    pub open spec fn id(self) -> IdView {
        match self {
            OutputView::Success { id, .. } => id,
            OutputView::Failure { id, .. } => id,
        }
    }
}

impl View for Output {
    type V = OutputView;

    open spec fn view(&self) -> OutputView {
        match self {
            Output::Success(success) => OutputView::Success {
                jsonrpc: success.jsonrpc,
                result: success.result,
                id: success.id@,
            },
            Output::Failure(failure) => OutputView::Failure {
                jsonrpc: failure.jsonrpc,
                error: failure.error@,
                id: failure.id@,
            },
        }
    }
}

/// An outbound message: one output or a batch of outputs.
#[derive(Debug, PartialEq)]
pub enum Response {
    /// The output of a single call.
    Single(Output),
    /// The outputs of a batch, in the order of its calls.
    Batch(Vec<Output>),
}

/// View of a [`Response`].
pub enum ResponseView {
    Single(OutputView),
    Batch(Seq<OutputView>),
}

/// The views of a list of outputs, in order.
pub open spec fn output_views(outputs: Seq<Output>) -> Seq<OutputView> {
    Seq::new(outputs.len(), |i: int| outputs[i]@)
}

impl View for Response {
    type V = ResponseView;

    open spec fn view(&self) -> ResponseView {
        match self {
            Response::Single(output) => ResponseView::Single(output@),
            Response::Batch(outputs) => ResponseView::Batch(output_views(outputs@)),
        }
    }
}

/// The view of an output that may be absent.
pub open spec fn output_view(output: Option<Output>) -> Option<OutputView> {
    match output {
        Some(output) => Some(output@),
        None => None,
    }
}

/// The view of a response that may be absent.
pub open spec fn response_view(response: Option<Response>) -> Option<ResponseView> {
    match response {
        Some(response) => Some(response@),
        None => None,
    }
}

/// The view of an answer: a value, or the view of an error.
pub open spec fn answer_view(answer: Result<serde_json::Value, Error>) -> Result<
    serde_json::Value,
    ErrorView,
> {
    match answer {
        Ok(value) => Ok(value),
        Err(error) => Err(error@),
    }
}

} // verus!
