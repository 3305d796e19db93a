//! Request dispatch for JSON-RPC 2.0: parameter binding, result encoding and
//! the call / notification / batch protocol engine.

pub mod args;
pub mod declaration;
pub mod laws;
pub mod registry;
pub mod result;
pub mod server;
pub mod text;
pub mod types;
pub mod value;

pub use args::{get_rpc_args, InvalidArgs};
pub use registry::{add_rpc_method, Procedure, RegistrationError, Registry};
pub use result::{ToRPCResult, SERVER_ERROR};
pub use server::JSONRPCServer;
pub use types::{
    Call, Error, ErrorCode, Failure, Id, MethodCall, Notification, Output, Params, Request,
    Response, Success, Version,
};
pub use value::JsonMap;
