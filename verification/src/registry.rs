//! The registry of procedures, and dispatch of a call to its procedure.

use crate::args::{binds, get_rpc_args, name_views, InvalidArgs, InvalidArgsView};
use crate::result::ToRPCResult;
use crate::server::{Answers, JSONRPCServer};
use crate::text::{has_reserved_prefix, is_reserved, str_eq};
use crate::types::{Error, ErrorCode, ErrorView, Params, ParamsView};
use vstd::prelude::*;

verus! {

/// A registered procedure: its name, the names of its parameters in declared
/// order, and the handler that carries it out on a bound argument list.  The
/// handler decodes the arguments, calls the procedure and hands back what it
/// returned, or names the argument that it could not decode.
pub struct Procedure<F> {
    pub name: &'static str,
    pub arg_names: &'static [&'static str],
    pub handler: F,
}

/// Why a procedure was not registered.
#[derive(Clone, Copy, Debug, PartialEq, Eq, Structural)]
pub enum RegistrationError {
    /// The name begins with `rpc.`, which the protocol keeps for itself.
    ReservedMethodPrefix,
    /// A procedure of that name is registered already.
    AlreadyRegistered,
}

/// Whether a procedure of the given name is among `procedures`.
pub open spec fn registered<F>(procedures: Seq<Procedure<F>>, name: Seq<char>) -> bool {
    exists|i: int| 0 <= i < procedures.len() && #[trigger] procedures[i].name@ == name
}

/// Whether `handler` may be called on every argument list of `arity` values.
pub open spec fn accepts<R, F: Fn(Vec<serde_json::Value>) -> Result<R, InvalidArgs>>(
    handler: F,
    arity: nat,
) -> bool {
    forall|args: Vec<serde_json::Value>|
        args@.len() == arity ==> #[trigger] call_requires(handler, (args,))
}

/// The answer that stands for what a handler returned: the encoding of the
/// procedure's return value, or the report of an argument that could not be
/// decoded.
pub open spec fn returned_answer<R: ToRPCResult>(returned: Result<R, InvalidArgs>) -> Result<
    serde_json::Value,
    ErrorView,
> {
    match returned {
        Ok(value) => value.rpc_result(),
        Err(invalid) => Err(invalid@.error()),
    }
}

/// Whether `answer` is one that `procedure` may give to `params`: the error
/// of a binding that failed, or what the handler returned on the bound
/// arguments.
pub open spec fn procedure_answers<
    R: ToRPCResult,
    F: Fn(Vec<serde_json::Value>) -> Result<R, InvalidArgs>,
>(procedure: Procedure<F>, params: ParamsView, answer: Result<serde_json::Value, ErrorView>) -> bool {
    exists|bound: Result<Seq<serde_json::Value>, InvalidArgsView>|
        {
            &&& #[trigger] binds(name_views(procedure.arg_names@), params, bound)
            &&& match bound {
                Err(invalid) => answer == Err::<serde_json::Value, ErrorView>(invalid.error()),
                Ok(values) => exists|
                    args: Vec<serde_json::Value>,
                    returned: Result<R, InvalidArgs>,
                |
                    {
                        &&& args@ == values
                        &&& #[trigger] call_ensures(procedure.handler, (args,), returned)
                        &&& answer == returned_answer(returned)
                    },
            }
        }
}

/// Whether `answer` is one that a registry of `procedures` may give to a call
/// of `method` with `params`: that the method is not found, where no
/// procedure has that name, else an answer of the procedure of that name.
pub open spec fn registry_answers<
    R: ToRPCResult,
    F: Fn(Vec<serde_json::Value>) -> Result<R, InvalidArgs>,
>(
    procedures: Seq<Procedure<F>>,
    method: Seq<char>,
    params: ParamsView,
    answer: Result<serde_json::Value, ErrorView>,
) -> bool {
    if registered(procedures, method) {
        exists|i: int|
            {
                &&& 0 <= i < procedures.len()
                &&& #[trigger] procedures[i].name@ == method
                &&& procedure_answers(procedures[i], params, answer)
            }
    } else {
        answer == Err::<serde_json::Value, ErrorView>(
            ErrorView::standard(ErrorCode::MethodNotFound),
        )
    }
}

/// The procedures of a server, by name.  Procedures are registered before
/// calls are dispatched, and never leave.
///
/// `R` is what the handlers hand back for the return value of a procedure:
/// an encoded value, or the `Result` of an encoded success payload and an
/// encoded failure payload, whose failure then travels on the error channel.
/// `F` is the type of the handlers.
#[verifier::reject_recursive_types(R)]
pub struct Registry<R: ToRPCResult, F: Fn(Vec<serde_json::Value>) -> Result<R, InvalidArgs>> {
    procedures: Vec<Procedure<F>>,
    returns: core::marker::PhantomData<R>,
}

impl<R: ToRPCResult, F: Fn(Vec<serde_json::Value>) -> Result<R, InvalidArgs>> View for Registry<
    R,
    F,
> {
    type V = Seq<Procedure<F>>;

    /// The procedures in the order in which they were registered.
    closed spec fn view(&self) -> Seq<Procedure<F>> {
        self.procedures@
    }
}

/// What holds of the procedures of every registry: no two have the same name,
/// none has a reserved name, and each handler may be called on every argument
/// list that has one value per declared parameter.
pub open spec fn well_formed<R, F: Fn(Vec<serde_json::Value>) -> Result<R, InvalidArgs>>(
    procedures: Seq<Procedure<F>>,
) -> bool {
    &&& forall|i: int, j: int|
        0 <= i < j < procedures.len() ==> #[trigger] procedures[i].name@
            != #[trigger] procedures[j].name@
    &&& forall|i: int|
        0 <= i < procedures.len() ==> !has_reserved_prefix(#[trigger] procedures[i].name@)
    &&& forall|i: int|
        0 <= i < procedures.len() ==> accepts(
            #[trigger] procedures[i].handler,
            procedures[i].arg_names@.len(),
        )
}

impl<R: ToRPCResult, F: Fn(Vec<serde_json::Value>) -> Result<R, InvalidArgs>> Registry<R, F> {
    #[verifier::type_invariant]
    closed spec fn inv(self) -> bool {
        well_formed(self.procedures@)
    }

    /// A registry without procedures.
    pub fn new() -> (registry: Self)
        ensures
            registry@ == Seq::<Procedure<F>>::empty(),
            well_formed(registry@),
    {
        Registry { procedures: Vec::new(), returns: core::marker::PhantomData }
    }

    /// The procedure registered under `name`, if there is one.
    pub fn lookup(&self, name: &str) -> (found: Option<&Procedure<F>>)
        ensures
            well_formed(self@),
            found is None <==> !registered(self@, name@),
            found matches Some(procedure) ==> exists|i: int|
                0 <= i < self@.len() && #[trigger] self@[i].name@ == name@ && *procedure
                    == self@[i],
    {
        proof {
            use_type_invariant(self);
        }
        let mut i: usize = 0;
        while i < self.procedures.len()
            invariant
                i <= self.procedures.len(),
                well_formed(self@),
                forall|k: int| 0 <= k < i ==> #[trigger] self.procedures@[k].name@ != name@,
            decreases self.procedures.len() - i,
        {
            if str_eq(self.procedures[i].name, name) {
                return Some(&self.procedures[i]);
            }
            i += 1;
        }
        None
    }
}

/// Registers the procedure `name` with its declared parameter names and its
/// handler.
///
/// A name with the reserved prefix `rpc.` is refused, and so is a name that
/// is registered already; the registry is then left as it was.
pub fn add_rpc_method<R, F>(
    registry: &mut Registry<R, F>,
    name: &'static str,
    arg_names: &'static [&'static str],
    cb: F,
) -> (added: Result<(), RegistrationError>) where
    R: ToRPCResult,
    F: Fn(Vec<serde_json::Value>) -> Result<R, InvalidArgs>,

    requires
        accepts(cb, arg_names@.len()),
    ensures
        well_formed(final(registry)@),
        match added {
            Ok(_) => {
                &&& !has_reserved_prefix(name@)
                &&& !registered(old(registry)@, name@)
                &&& final(registry)@ == old(registry)@.push(
                    Procedure { name, arg_names, handler: cb },
                )
            },
            Err(RegistrationError::ReservedMethodPrefix) => {
                &&& has_reserved_prefix(name@)
                &&& final(registry)@ == old(registry)@
            },
            Err(RegistrationError::AlreadyRegistered) => {
                &&& !has_reserved_prefix(name@)
                &&& registered(old(registry)@, name@)
                &&& final(registry)@ == old(registry)@
            },
        },
{
    proof {
        use_type_invariant(&*registry);
    }
    if is_reserved(name) {
        return Err(RegistrationError::ReservedMethodPrefix);
    }
    if registry.lookup(name).is_some() {
        return Err(RegistrationError::AlreadyRegistered);
    }
    let mut procedures: Vec<Procedure<F>> = Vec::new();
    core::mem::swap(&mut registry.procedures, &mut procedures);
    procedures.push(Procedure { name, arg_names, handler: cb });
    assert forall|i: int, j: int| 0 <= i < j < procedures@.len() implies procedures@[i].name@
        != procedures@[j].name@ by {}
    core::mem::swap(&mut registry.procedures, &mut procedures);
    Ok(())
}

impl<R: ToRPCResult, F: Fn(Vec<serde_json::Value>) -> Result<R, InvalidArgs>> JSONRPCServer for Registry<
    R,
    F,
> {
    /// The answers of the registered procedures.
    open spec fn answers(&self) -> Answers {
        |method: Seq<char>, params: ParamsView, answer: Result<serde_json::Value, ErrorView>|
            registry_answers(self@, method, params, answer)
    }

    /// Dispatches a call: finds the procedure, binds the parameters to its
    /// declared names, hands the arguments to its handler and encodes what
    /// the handler returned.
    fn handle(&self, method: &str, params: Params) -> (answer: Result<serde_json::Value, Error>) {
        match self.lookup(method) {
            None => Err(Error::method_not_found()),
            Some(procedure) => {
                match get_rpc_args(procedure.arg_names, params) {
                    Err(invalid) => Err(invalid.into_error()),
                    Ok(args) => {
                        match (procedure.handler)(args) {
                            Ok(returned) => returned.to_result(),
                            Err(invalid) => Err(invalid.into_error()),
                        }
                    },
                }
            },
        }
    }
}

} // verus!
