//! The registry and the protocol engine on typed requests.

use jsonrpc_interface::{
    add_rpc_method, Call, Error, ErrorCode, Failure, Id, InvalidArgs, JSONRPCServer, JsonMap,
    MethodCall, Notification, Output, Params, RegistrationError, Registry, Request, Response,
    Success, Version,
};
use serde_json::Value;
use std::cell::Cell;
use std::rc::Rc;

type Handler = Box<dyn Fn(Vec<Value>) -> Result<Value, InvalidArgs>>;

fn sum(args: Vec<Value>) -> Result<Value, InvalidArgs> {
    let mut total: i64 = 0;
    for (index, arg) in args.iter().enumerate() {
        match arg.as_i64() {
            Some(number) => total += number,
            None => {
                return Err(InvalidArgs::InvalidArgStructure {
                    name: if index == 0 { "a" } else { "b" },
                    index,
                })
            }
        }
    }
    Ok(Value::from(total))
}

/// A registry with `sum(a, b)` and `tick()`, which counts its calls.
fn registry(ticks: Rc<Cell<usize>>) -> Registry<Value, Handler> {
    let mut registry: Registry<Value, Handler> = Registry::new();
    assert_eq!(add_rpc_method(&mut registry, "sum", &["a", "b"], Box::new(sum) as Handler), Ok(()));
    let tick: Handler = Box::new(move |_args: Vec<Value>| {
        ticks.set(ticks.get() + 1);
        Ok(Value::Null)
    });
    assert_eq!(add_rpc_method(&mut registry, "tick", &[], tick), Ok(()));
    registry
}

fn plain() -> Registry<Value, Handler> {
    registry(Rc::new(Cell::new(0)))
}

fn numbers(values: &[i64]) -> Params {
    Params::Positional(values.iter().map(|n| Value::from(*n)).collect())
}

fn call(method: &str, params: Params, id: Id) -> Call {
    Call::MethodCall(MethodCall {
        jsonrpc: Some(Version::V2),
        method: method.to_string(),
        params,
        id,
    })
}

fn note(method: &str, params: Params) -> Call {
    Call::Notification(Notification {
        jsonrpc: Some(Version::V2),
        method: method.to_string(),
        params,
    })
}

fn success(result: Value, id: Id) -> Output {
    Output::Success(Success { jsonrpc: Some(Version::V2), result, id })
}

fn failure(error: Error, id: Id) -> Output {
    Output::Failure(Failure { jsonrpc: Some(Version::V2), error, id })
}

#[test]
fn reserved_names_are_refused() {
    let mut registry = plain();
    let handler: Handler = Box::new(sum);
    assert_eq!(
        add_rpc_method(&mut registry, "rpc.sum", &["a", "b"], handler),
        Err(RegistrationError::ReservedMethodPrefix)
    );
    assert!(registry.lookup("rpc.sum").is_none());
    assert_eq!(
        registry.handle("rpc.sum", numbers(&[1, 2])),
        Err(Error::method_not_found())
    );
}

#[test]
fn a_name_is_registered_once() {
    let mut registry = plain();
    let other: Handler = Box::new(|_args: Vec<Value>| Ok(Value::from("other")));
    assert_eq!(
        add_rpc_method(&mut registry, "sum", &[], other),
        Err(RegistrationError::AlreadyRegistered)
    );
    // the first registration stands
    assert_eq!(registry.lookup("sum").unwrap().arg_names, &["a", "b"]);
    assert_eq!(registry.handle("sum", numbers(&[1, 2])), Ok(Value::from(3)));
}

#[test]
fn lookup_is_by_exact_name() {
    let registry = plain();
    assert_eq!(registry.lookup("sum").unwrap().name, "sum");
    assert_eq!(registry.lookup("tick").unwrap().name, "tick");
    assert!(registry.lookup("Sum").is_none());
    assert!(registry.lookup("su").is_none());
    assert!(registry.lookup("summ").is_none());
    assert!(registry.lookup("").is_none());
    let empty: Registry<Value, Handler> = Registry::new();
    assert!(empty.lookup("sum").is_none());
}

#[test]
fn dispatch_binds_and_invokes() {
    let registry = plain();
    assert_eq!(registry.handle("sum", numbers(&[40, 2])), Ok(Value::from(42)));
    let mut members = JsonMap::new();
    members.insert("b".to_string(), Value::from(2));
    members.insert("a".to_string(), Value::from(40));
    assert_eq!(registry.handle("sum", Params::Named(members)), Ok(Value::from(42)));
    assert_eq!(registry.handle("tick", Params::Absent), Ok(Value::Null));
}

#[test]
fn dispatch_reports_what_went_wrong() {
    let registry = plain();
    assert_eq!(registry.handle("nonexist", numbers(&[])), Err(Error::method_not_found()));
    assert_eq!(
        registry.handle("sum", Params::Absent),
        Err(InvalidArgs::WrongNumberOfArgs { expected: 2, actual: 0 }.into_error())
    );
    assert_eq!(
        registry.handle("sum", Params::Positional(vec![Value::from(1), Value::from("x")])),
        Err(InvalidArgs::InvalidArgStructure { name: "b", index: 1 }.into_error())
    );
    assert_eq!(
        registry.handle("tick", numbers(&[1])).unwrap_err().code,
        ErrorCode::InvalidParams
    );
}

#[test]
fn method_call_has_one_output_with_its_id() {
    let registry = plain();
    assert_eq!(
        registry.handle_call(call("sum", numbers(&[1, 1]), Id::Num(1))),
        Some(success(Value::from(2), Id::Num(1)))
    );
    assert_eq!(
        registry.handle_call(call("nonexist", numbers(&[]), Id::Str("x".to_string()))),
        Some(failure(Error::method_not_found(), Id::Str("x".to_string())))
    );
    assert_eq!(
        registry.handle_call(Call::MethodCall(MethodCall {
            jsonrpc: None,
            method: "tick".to_string(),
            params: Params::Absent,
            id: Id::Null,
        })),
        Some(Output::Success(Success { jsonrpc: None, result: Value::Null, id: Id::Null }))
    );
}

#[test]
fn invalid_call_fails_without_dispatch() {
    let ticks = Rc::new(Cell::new(0));
    let registry = registry(ticks.clone());
    assert_eq!(
        registry.handle_call(Call::Invalid { id: Id::Num(9) }),
        Some(failure(Error::invalid_request(), Id::Num(9)))
    );
    assert_eq!(ticks.get(), 0);
}

#[test]
fn notification_is_carried_out_and_not_answered() {
    let ticks = Rc::new(Cell::new(0));
    let registry = registry(ticks.clone());
    assert_eq!(registry.handle_call(note("tick", Params::Absent)), None);
    assert_eq!(ticks.get(), 1);
    assert_eq!(registry.handle_call(note("nonexist", Params::Absent)), None);
    assert_eq!(registry.handle_call(note("sum", numbers(&[1]))), None);
    assert_eq!(registry.handle_call(note("tick", numbers(&[1]))), None);
    assert_eq!(ticks.get(), 1);
    assert_eq!(registry.handle_parsed(Request::Single(note("tick", Params::Absent))), None);
    assert_eq!(ticks.get(), 2);
}

#[test]
fn single_call_has_a_single_response() {
    let registry = plain();
    assert_eq!(
        registry.handle_parsed(Request::Single(call("sum", numbers(&[2, 3]), Id::Num(5)))),
        Some(Response::Single(success(Value::from(5), Id::Num(5))))
    );
}

#[test]
fn batch_outputs_keep_call_order() {
    let ticks = Rc::new(Cell::new(0));
    let registry = registry(ticks.clone());
    let batch = Request::Batch(vec![
        note("tick", Params::Absent),
        call("sum", numbers(&[1, 2]), Id::Num(1)),
        Call::Invalid { id: Id::Null },
        note("nonexist", Params::Absent),
        call("sum", numbers(&[1]), Id::Num(2)),
        call("tick", Params::Absent, Id::Num(3)),
    ]);
    assert_eq!(
        registry.handle_parsed(batch),
        Some(Response::Batch(vec![
            success(Value::from(3), Id::Num(1)),
            failure(Error::invalid_request(), Id::Null),
            failure(
                InvalidArgs::WrongNumberOfArgs { expected: 2, actual: 1 }.into_error(),
                Id::Num(2)
            ),
            success(Value::Null, Id::Num(3)),
        ]))
    );
    assert_eq!(ticks.get(), 2);
}

#[test]
fn a_failing_call_leaves_its_siblings_alone() {
    let registry = plain();
    let batch = Request::Batch(vec![
        call("nonexist", Params::Absent, Id::Num(1)),
        call("sum", numbers(&[20, 22]), Id::Num(2)),
    ]);
    assert_eq!(
        registry.handle_parsed(batch),
        Some(Response::Batch(vec![
            failure(Error::method_not_found(), Id::Num(1)),
            success(Value::from(42), Id::Num(2)),
        ]))
    );
}

#[test]
fn batch_of_one_call_is_still_a_batch() {
    let registry = plain();
    assert_eq!(
        registry.handle_parsed(Request::Batch(vec![call("sum", numbers(&[1, 1]), Id::Num(1))])),
        Some(Response::Batch(vec![success(Value::from(2), Id::Num(1))]))
    );
}

#[test]
fn empty_and_silent_batches_have_no_response() {
    let ticks = Rc::new(Cell::new(0));
    let registry = registry(ticks.clone());
    assert_eq!(registry.handle_parsed(Request::Batch(vec![])), None);
    let batch = Request::Batch(vec![
        note("tick", Params::Absent),
        note("nonexist", Params::Absent),
        note("tick", Params::Absent),
    ]);
    assert_eq!(registry.handle_parsed(batch), None);
    assert_eq!(ticks.get(), 2);
}

#[test]
fn undecoded_message_is_an_invalid_call_without_id() {
    let registry = plain();
    assert_eq!(
        registry.handle_decoded(None),
        Some(Response::Single(failure(Error::invalid_request(), Id::Null)))
    );
    assert_eq!(
        registry.handle_decoded(Some(Request::Single(call("sum", numbers(&[1, 1]), Id::Num(1))))),
        Some(Response::Single(success(Value::from(2), Id::Num(1))))
    );
    assert_eq!(registry.handle_decoded(Some(Request::Batch(vec![]))), None);
}

/// A server that implements `handle` itself.
struct Fixed;

impl JSONRPCServer for Fixed {
    fn handle(&self, method: &str, _params: Params) -> Result<Value, Error> {
        if method == "ping" {
            Ok(Value::from("pong"))
        } else {
            Err(Error::method_not_found())
        }
    }
}

#[test]
fn engine_serves_any_implementation() {
    assert_eq!(
        Fixed.handle_call(call("ping", Params::Absent, Id::Num(1))),
        Some(success(Value::from("pong"), Id::Num(1)))
    );
    assert_eq!(Fixed.handle_call(note("ping", Params::Absent)), None);
    assert_eq!(
        Fixed.handle_parsed(Request::Batch(vec![
            call("pong", Params::Absent, Id::Num(1)),
            note("ping", Params::Absent),
            call("ping", Params::Absent, Id::Num(2)),
        ])),
        Some(Response::Batch(vec![
            failure(Error::method_not_found(), Id::Num(1)),
            success(Value::from("pong"), Id::Num(2)),
        ]))
    );
}
