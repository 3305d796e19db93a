//! The rules that a trait must meet before its methods are registered as
//! procedures.
//!
//! A generator of registration code reads a trait definition and hands over
//! what the rules look at: for each item whether it is a method, the name of
//! the method, and the shape of each of its arguments.  The first breach is
//! reported with its place.

use crate::text::{has_reserved_prefix, is_reserved};
use vstd::prelude::*;

verus! {

/// Why a trait cannot be served.
#[derive(Clone, Copy, Debug, PartialEq, Eq, Structural)]
pub enum RejectReason {
    /// A method whose first argument is not `&self`.
    FirstArgumentNotSelfRef,
    /// An argument that is a pattern and no plain name.
    PatternMatchedArgsNotSupported,
    /// An argument without a name and a type of its own.
    ConcreteTypesRequired,
    /// An item of the trait that is no method.
    TraitNotStrictlyMethods,
    /// A method whose name begins with `rpc.`.
    ReservedMethodPrefix,
}

impl RejectReason {
    /// What is said to the author of the trait.
    pub open spec fn spec_description(self) -> Seq<char> {
        match self {
            RejectReason::FirstArgumentNotSelfRef => {
                "First argument to jsonrpc method must be &self."@
            },
            RejectReason::PatternMatchedArgsNotSupported => {
                "Pattern matched arguments are not supported in jsonrpc methods."@
            },
            RejectReason::ConcreteTypesRequired => {
                "Arguments and return values must have concrete types."@
            },
            RejectReason::TraitNotStrictlyMethods => {
                "Macro 'jsonrpc_server' expects trait definition containing methods only."@
            },
            RejectReason::ReservedMethodPrefix => {
                "The prefix 'rpc.' is reserved https://www.jsonrpc.org/specification#request_object"@
            },
        }
    }

    /// What is said to the author of the trait.
    pub fn description(&self) -> (text: &'static str)
        ensures
            text@ == self.spec_description(),
    {
        match self {
            RejectReason::FirstArgumentNotSelfRef => {
                "First argument to jsonrpc method must be &self."
            },
            RejectReason::PatternMatchedArgsNotSupported => {
                "Pattern matched arguments are not supported in jsonrpc methods."
            },
            RejectReason::ConcreteTypesRequired => {
                "Arguments and return values must have concrete types."
            },
            RejectReason::TraitNotStrictlyMethods => {
                "Macro 'jsonrpc_server' expects trait definition containing methods only."
            },
            RejectReason::ReservedMethodPrefix => {
                "The prefix 'rpc.' is reserved https://www.jsonrpc.org/specification#request_object"
            },
        }
    }
}

/// What the rules read of one argument of a method.
#[derive(Clone, Copy, Debug, PartialEq, Eq, Structural)]
pub enum ArgShape {
    /// `&self`.
    SelfRef,
    /// `&mut self`.
    SelfRefMut,
    /// `self`, by value.
    SelfValue,
    /// A plain name with its type, as in `a: isize`.
    Named,
    /// A pattern with its type, as in `(a, b): (isize, isize)`.
    Pattern,
    /// An argument without a name or without a type.
    Bare,
}

/// What the rules read of one item of a trait.
#[derive(Debug, PartialEq, Eq)]
pub enum ItemShape {
    /// A method, with its name and its arguments in order.
    Method { name: String, args: Vec<ArgShape> },
    /// Any other item.
    Other,
}

/// View of an [`ItemShape`].
pub enum ItemShapeView {
    Method { name: Seq<char>, args: Seq<ArgShape> },
    Other,
}

impl View for ItemShape {
    type V = ItemShapeView;

    open spec fn view(&self) -> ItemShapeView {
        match self {
            ItemShape::Method { name, args } => ItemShapeView::Method { name: name@, args: args@ },
            ItemShape::Other => ItemShapeView::Other,
        }
    }
}

/// The views of the items of a trait, in order.
pub open spec fn item_views(items: Seq<ItemShape>) -> Seq<ItemShapeView> {
    Seq::new(items.len(), |i: int| items[i]@)
}

/// The first breach of the rules: the item, the argument of the item where
/// the breach lies in one, and the reason.
#[derive(Clone, Copy, Debug, PartialEq, Eq, Structural)]
pub struct Rejection {
    pub item: usize,
    pub arg: Option<usize>,
    pub reason: RejectReason,
}

/// Why an argument after the first cannot be a parameter of a procedure, if
/// it cannot: it must be a plain name with its type.
pub open spec fn arg_breach(arg: ArgShape) -> Option<RejectReason> {
    match arg {
        ArgShape::Named => None,
        ArgShape::Pattern => Some(RejectReason::PatternMatchedArgsNotSupported),
        _ => Some(RejectReason::ConcreteTypesRequired),
    }
}

/// Whether `checked` is the verdict on the arguments of a method.
///
/// The first argument must be `&self`; a method without arguments is
/// rejected for that reason too, at no argument.  Every later argument must
/// be a plain name with its type; the first that is not is rejected.
pub open spec fn args_verdict(
    args: Seq<ArgShape>,
    checked: Result<(), (Option<usize>, RejectReason)>,
) -> bool {
    match checked {
        Ok(_) => {
            &&& args.len() > 0
            &&& args[0] == ArgShape::SelfRef
            &&& forall|i: int| 1 <= i < args.len() ==> arg_breach(#[trigger] args[i]) is None
        },
        Err((None, reason)) => args.len() == 0 && reason == RejectReason::FirstArgumentNotSelfRef,
        Err((Some(at), reason)) => {
            &&& at < args.len()
            &&& if at == 0 {
                args[0] != ArgShape::SelfRef && reason == RejectReason::FirstArgumentNotSelfRef
            } else {
                &&& args[0] == ArgShape::SelfRef
                &&& arg_breach(args[at as int]) == Some(reason)
                &&& forall|i: int| 1 <= i < at ==> arg_breach(#[trigger] args[i]) is None
            }
        },
    }
}

/// Whether the arguments of a method meet the rules.
pub open spec fn args_accepted(args: Seq<ArgShape>) -> bool {
    args_verdict(args, Ok(()))
}

/// Checks one argument after the first.
pub fn check_arg(arg: ArgShape) -> (breach: Option<RejectReason>)
    ensures
        breach == arg_breach(arg),
{
    match arg {
        ArgShape::Named => None,
        ArgShape::Pattern => Some(RejectReason::PatternMatchedArgsNotSupported),
        _ => Some(RejectReason::ConcreteTypesRequired),
    }
}

/// Checks the arguments of a method: the first must be `&self`, the others
/// plain names with their types.  Reports the first argument that is not,
/// with its position.
pub fn check_args(args: &[ArgShape]) -> (checked: Result<(), (Option<usize>, RejectReason)>)
    ensures
        args_verdict(args@, checked),
{
    if args.len() == 0 {
        return Err((None, RejectReason::FirstArgumentNotSelfRef));
    }
    match args[0] {
        ArgShape::SelfRef => {},
        _ => {
            return Err((Some(0), RejectReason::FirstArgumentNotSelfRef));
        },
    }
    let mut i: usize = 1;
    while i < args.len()
        invariant
            1 <= i <= args.len(),
            args@[0] == ArgShape::SelfRef,
            forall|k: int| 1 <= k < i ==> arg_breach(#[trigger] args@[k]) is None,
        decreases args.len() - i,
    {
        match check_arg(args[i]) {
            Some(reason) => {
                return Err((Some(i), reason));
            },
            None => {},
        }
        i += 1;
    }
    Ok(())
}

/// Whether `checked` is the verdict on the items of a trait.
///
/// Every item must be a method: the first that is not is rejected.  Where all
/// are methods, none may have a reserved name: the first that has is
/// rejected.  Where none has, the arguments of every method must meet the
/// rules: the first breach in the first method that has one is rejected.
pub open spec fn trait_verdict(items: Seq<ItemShapeView>, checked: Result<(), Rejection>) -> bool {
    match checked {
        Ok(_) => forall|i: int|
            0 <= i < items.len() ==> (#[trigger] items[i] matches ItemShapeView::Method {
                name,
                args,
            } && !has_reserved_prefix(name) && args_accepted(args)),
        Err(rejection) => {
            &&& rejection.item < items.len()
            &&& match rejection.reason {
                RejectReason::TraitNotStrictlyMethods => {
                    &&& rejection.arg is None
                    &&& items[rejection.item as int] is Other
                    &&& forall|i: int| 0 <= i < rejection.item ==> #[trigger] items[i] is Method
                },
                RejectReason::ReservedMethodPrefix => {
                    &&& rejection.arg is None
                    &&& forall|i: int| 0 <= i < items.len() ==> #[trigger] items[i] is Method
                    &&& has_reserved_prefix(items[rejection.item as int]->name)
                    &&& forall|i: int|
                        0 <= i < rejection.item ==> !has_reserved_prefix(
                            (#[trigger] items[i])->name,
                        )
                },
                reason => {
                    &&& forall|i: int| 0 <= i < items.len() ==> #[trigger] items[i] is Method
                    &&& forall|i: int|
                        0 <= i < items.len() ==> !has_reserved_prefix((#[trigger] items[i])->name)
                    &&& args_verdict(
                        items[rejection.item as int]->args,
                        Err((rejection.arg, reason)),
                    )
                    &&& forall|i: int|
                        0 <= i < rejection.item ==> args_accepted((#[trigger] items[i])->args)
                },
            }
        },
    }
}

/// Checks the items of a trait against the rules and reports the first
/// breach with its place.
pub fn check_trait(items: &[ItemShape]) -> (checked: Result<(), Rejection>)
    ensures
        trait_verdict(item_views(items@), checked),
{
    let ghost views = item_views(items@);
    let mut i: usize = 0;
    while i < items.len()
        invariant
            i <= items.len(),
            views == item_views(items@),
            forall|k: int| 0 <= k < i ==> #[trigger] views[k] is Method,
        decreases items.len() - i,
    {
        match &items[i] {
            ItemShape::Method { .. } => {},
            ItemShape::Other => {
                return Err(
                    Rejection {
                        item: i,
                        arg: None,
                        reason: RejectReason::TraitNotStrictlyMethods,
                    },
                );
            },
        }
        i += 1;
    }
    let mut i: usize = 0;
    while i < items.len()
        invariant
            i <= items.len(),
            views == item_views(items@),
            forall|k: int| 0 <= k < items.len() ==> #[trigger] views[k] is Method,
            forall|k: int| 0 <= k < i ==> !has_reserved_prefix((#[trigger] views[k])->name),
        decreases items.len() - i,
    {
        match &items[i] {
            ItemShape::Method { name, .. } => {
                if is_reserved(name.as_str()) {
                    return Err(
                        Rejection {
                            item: i,
                            arg: None,
                            reason: RejectReason::ReservedMethodPrefix,
                        },
                    );
                }
            },
            ItemShape::Other => {},
        }
        i += 1;
    }
    let mut i: usize = 0;
    while i < items.len()
        invariant
            i <= items.len(),
            views == item_views(items@),
            forall|k: int| 0 <= k < items.len() ==> #[trigger] views[k] is Method,
            forall|k: int|
                0 <= k < items.len() ==> !has_reserved_prefix((#[trigger] views[k])->name),
            forall|k: int| 0 <= k < i ==> args_accepted((#[trigger] views[k])->args),
        decreases items.len() - i,
    {
        match &items[i] {
            ItemShape::Method { args, .. } => {
                match check_args(args.as_slice()) {
                    Err((arg, reason)) => {
                        return Err(Rejection { item: i, arg, reason });
                    },
                    Ok(_) => {},
                }
            },
            ItemShape::Other => {},
        }
        i += 1;
    }
    Ok(())
}

} // verus!
