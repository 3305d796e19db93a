//! The rules on a trait whose methods are to be served.

use jsonrpc_interface::declaration::{
    check_arg, check_args, check_trait, ArgShape, ItemShape, RejectReason, Rejection,
};

fn method(name: &str, args: &[ArgShape]) -> ItemShape {
    ItemShape::Method { name: name.to_string(), args: args.to_vec() }
}

#[test]
fn later_arguments_must_be_plain_names() {
    assert_eq!(check_arg(ArgShape::Named), None);
    assert_eq!(check_arg(ArgShape::Pattern), Some(RejectReason::PatternMatchedArgsNotSupported));
    assert_eq!(check_arg(ArgShape::Bare), Some(RejectReason::ConcreteTypesRequired));
    assert_eq!(check_arg(ArgShape::SelfRef), Some(RejectReason::ConcreteTypesRequired));
    assert_eq!(check_arg(ArgShape::SelfRefMut), Some(RejectReason::ConcreteTypesRequired));
    assert_eq!(check_arg(ArgShape::SelfValue), Some(RejectReason::ConcreteTypesRequired));
}

#[test]
fn first_argument_must_be_self_by_reference() {
    assert_eq!(check_args(&[ArgShape::SelfRef]), Ok(()));
    assert_eq!(check_args(&[ArgShape::SelfRef, ArgShape::Named, ArgShape::Named]), Ok(()));
    assert_eq!(check_args(&[]), Err((None, RejectReason::FirstArgumentNotSelfRef)));
    assert_eq!(
        check_args(&[ArgShape::SelfRefMut]),
        Err((Some(0), RejectReason::FirstArgumentNotSelfRef))
    );
    assert_eq!(
        check_args(&[ArgShape::SelfValue, ArgShape::Named]),
        Err((Some(0), RejectReason::FirstArgumentNotSelfRef))
    );
    assert_eq!(
        check_args(&[ArgShape::Named, ArgShape::Pattern]),
        Err((Some(0), RejectReason::FirstArgumentNotSelfRef))
    );
}

#[test]
fn first_breach_among_the_arguments_is_reported() {
    assert_eq!(
        check_args(&[ArgShape::SelfRef, ArgShape::Named, ArgShape::Pattern, ArgShape::Bare]),
        Err((Some(2), RejectReason::PatternMatchedArgsNotSupported))
    );
    assert_eq!(
        check_args(&[ArgShape::SelfRef, ArgShape::Bare, ArgShape::Pattern]),
        Err((Some(1), RejectReason::ConcreteTypesRequired))
    );
    assert_eq!(
        check_args(&[ArgShape::SelfRef, ArgShape::SelfRef]),
        Err((Some(1), RejectReason::ConcreteTypesRequired))
    );
}

#[test]
fn a_trait_of_well_formed_methods_is_accepted() {
    assert_eq!(check_trait(&[]), Ok(()));
    assert_eq!(
        check_trait(&[
            method("wrapping_add", &[ArgShape::SelfRef, ArgShape::Named, ArgShape::Named]),
            method("greet", &[ArgShape::SelfRef]),
        ]),
        Ok(())
    );
}

#[test]
fn an_item_that_is_no_method_is_rejected_first() {
    assert_eq!(
        check_trait(&[
            method("rpc.first", &[]),
            ItemShape::Other,
            method("greet", &[ArgShape::SelfRef]),
            ItemShape::Other,
        ]),
        Err(Rejection { item: 1, arg: None, reason: RejectReason::TraitNotStrictlyMethods })
    );
}

#[test]
fn a_reserved_name_is_rejected_before_any_argument() {
    assert_eq!(
        check_trait(&[
            method("greet", &[ArgShape::SelfValue]),
            method("rpc.discover", &[ArgShape::SelfRef]),
            method("rpc.other", &[ArgShape::SelfRef]),
        ]),
        Err(Rejection { item: 1, arg: None, reason: RejectReason::ReservedMethodPrefix })
    );
}

#[test]
fn the_first_method_with_a_breach_is_rejected() {
    assert_eq!(
        check_trait(&[
            method("greet", &[ArgShape::SelfRef]),
            method("add", &[ArgShape::SelfRef, ArgShape::Named, ArgShape::Pattern]),
            method("sub", &[]),
        ]),
        Err(Rejection {
            item: 1,
            arg: Some(2),
            reason: RejectReason::PatternMatchedArgsNotSupported
        })
    );
    assert_eq!(
        check_trait(&[method("greet", &[ArgShape::SelfRef]), method("sub", &[])]),
        Err(Rejection { item: 1, arg: None, reason: RejectReason::FirstArgumentNotSelfRef })
    );
}

#[test]
fn reasons_are_described() {
    assert_eq!(
        RejectReason::FirstArgumentNotSelfRef.description(),
        "First argument to jsonrpc method must be &self."
    );
    assert_eq!(
        RejectReason::PatternMatchedArgsNotSupported.description(),
        "Pattern matched arguments are not supported in jsonrpc methods."
    );
    assert_eq!(
        RejectReason::ConcreteTypesRequired.description(),
        "Arguments and return values must have concrete types."
    );
    assert_eq!(
        RejectReason::TraitNotStrictlyMethods.description(),
        "Macro 'jsonrpc_server' expects trait definition containing methods only."
    );
    assert_eq!(
        RejectReason::ReservedMethodPrefix.description(),
        "The prefix 'rpc.' is reserved https://www.jsonrpc.org/specification#request_object"
    );
}
