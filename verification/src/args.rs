//! Binding a parameter payload to the declared parameter names of a
//! procedure, and the errors of doing so.

use crate::text::{decimal_digits, decimal_string};
use crate::types::{Error, ErrorView, Params, ParamsView};
use crate::value::{map_entries, map_first_key, map_remove};
use vstd::prelude::*;
use vstd::string::*;

verus! {

/// Why a payload cannot serve as the arguments of a procedure.
#[derive(Debug, PartialEq)]
#[allow(inconsistent_fields)]
pub enum InvalidArgs {
    /// A positional payload whose length is not the number of declared
    /// parameters.
    WrongNumberOfArgs { expected: usize, actual: usize },
    /// A named payload with a member that is no declared parameter.
    ExtraNamedParameter { name: String },
    /// A named payload that lacks a declared parameter.
    MissingNamedParameter { name: &'static str },
    /// An argument whose content does not fit the declared type of its
    /// parameter.
    InvalidArgStructure { name: &'static str, index: usize },
}

/// View of an [`InvalidArgs`].
pub enum InvalidArgsView {
    WrongNumberOfArgs { expected: nat, actual: nat },
    ExtraNamedParameter { name: Seq<char> },
    MissingNamedParameter { name: Seq<char> },
    InvalidArgStructure { name: Seq<char>, index: nat },
}

impl View for InvalidArgs {
    type V = InvalidArgsView;

    open spec fn view(&self) -> InvalidArgsView {
        match self {
            InvalidArgs::WrongNumberOfArgs { expected, actual } => {
                InvalidArgsView::WrongNumberOfArgs {
                    expected: *expected as nat,
                    actual: *actual as nat,
                }
            },
            InvalidArgs::ExtraNamedParameter { name } => InvalidArgsView::ExtraNamedParameter {
                name: name@,
            },
            InvalidArgs::MissingNamedParameter { name } => {
                InvalidArgsView::MissingNamedParameter { name: name@ }
            },
            InvalidArgs::InvalidArgStructure { name, index } => {
                InvalidArgsView::InvalidArgStructure { name: name@, index: *index as nat }
            },
        }
    }
}

impl InvalidArgsView {
    /// The message under which the error is reported to the caller.
    pub open spec fn message(self) -> Seq<char> {
        match self {
            InvalidArgsView::WrongNumberOfArgs { expected, actual } => {
                "WrongNumberOfArgs. Expected "@ + decimal_digits(expected) + ". Actual "@
                    + decimal_digits(actual)
            },
            InvalidArgsView::ExtraNamedParameter { name } => "ExtraNamedParameter "@ + name,
            InvalidArgsView::MissingNamedParameter { name } => "MissingNamedParameter "@ + name,
            InvalidArgsView::InvalidArgStructure { name, index } => {
                "InvalidArgStructure "@ + name + " at position "@ + decimal_digits(index) + "."@
            },
        }
    }

    /// The protocol error that reports this error: invalid parameters, with
    /// the message above and no data.
    pub open spec fn error(self) -> ErrorView {
        ErrorView::invalid_params(self.message())
    }
}

/// The declared names as sequences of characters.
pub open spec fn name_views(names: Seq<&'static str>) -> Seq<Seq<char>> {
    Seq::new(names.len(), |i: int| names[i]@)
}

/// The view of a binding result.
pub open spec fn bound_view(bound: Result<Vec<serde_json::Value>, InvalidArgs>) -> Result<
    Seq<serde_json::Value>,
    InvalidArgsView,
> {
    match bound {
        Ok(values) => Ok(values@),
        Err(error) => Err(error@),
    }
}

/// The binding of a positional payload: the values themselves where there is
/// one per declared name, else the two counts.
pub open spec fn bind_positional(names: Seq<Seq<char>>, values: Seq<serde_json::Value>) -> Result<
    Seq<serde_json::Value>,
    InvalidArgsView,
> {
    if values.len() == names.len() {
        Ok(values)
    } else {
        Err(InvalidArgsView::WrongNumberOfArgs { expected: names.len(), actual: values.len() })
    }
}

/// Whether one of the first `i` declared names is `key`.
pub open spec fn taken(names: Seq<Seq<char>>, i: int, key: Seq<char>) -> bool {
    exists|j: int| 0 <= j < i && names[j] == key
}

/// Whether the lookup of the declared name at position `i` fails: the payload
/// has no member of that name, or an earlier declared name has taken it.
pub open spec fn missing_at(
    names: Seq<Seq<char>>,
    members: Map<Seq<char>, serde_json::Value>,
    i: int,
) -> bool {
    !members.contains_key(names[i]) || taken(names, i, names[i])
}

/// Whether every declared name finds its member.
pub open spec fn all_found(names: Seq<Seq<char>>, members: Map<Seq<char>, serde_json::Value>) -> bool {
    forall|i: int| 0 <= i < names.len() ==> !missing_at(names, members, i)
}

/// Whether `bound` is a binding of a named payload.
///
/// The first declared name that is not found is reported as missing.  Where
/// all are found, a member of the payload that no declared name took is
/// reported as extra; which one, where there are several, is not fixed.
/// Where there is none, the binding is the members' values in declared order.
pub open spec fn binds_named(
    names: Seq<Seq<char>>,
    members: Map<Seq<char>, serde_json::Value>,
    bound: Result<Seq<serde_json::Value>, InvalidArgsView>,
) -> bool {
    match bound {
        Ok(values) => {
            &&& all_found(names, members)
            &&& forall|key: Seq<char>| members.contains_key(key) ==> names.contains(key)
            &&& values.len() == names.len()
            &&& forall|i: int| 0 <= i < names.len() ==> values[i] == members[names[i]]
        },
        Err(InvalidArgsView::MissingNamedParameter { name }) => {
            exists|i: int|
                {
                    &&& 0 <= i < names.len()
                    &&& name == names[i]
                    &&& #[trigger] missing_at(names, members, i)
                    &&& forall|j: int| 0 <= j < i ==> !missing_at(names, members, j)
                }
        },
        Err(InvalidArgsView::ExtraNamedParameter { name }) => {
            &&& all_found(names, members)
            &&& members.contains_key(name)
            &&& !names.contains(name)
        },
        Err(_) => false,
    }
}

/// Whether `bound` is a binding of `params` to the declared `names`.  An
/// absent payload binds as an empty positional one.
pub open spec fn binds(
    names: Seq<Seq<char>>,
    params: ParamsView,
    bound: Result<Seq<serde_json::Value>, InvalidArgsView>,
) -> bool {
    match params {
        ParamsView::Absent => bound == bind_positional(names, Seq::empty()),
        ParamsView::Positional(values) => bound == bind_positional(names, values),
        ParamsView::Named(members) => binds_named(names, members, bound),
    }
}

/// Verifies a parameter payload against the declared parameter names and
/// turns it into the argument list, in declared order.
///
/// Checks that a positional payload has one value per declared name, that a
/// named payload lacks no declared name and that it has no other member.  An
/// absent payload is read as an empty positional one.
pub fn get_rpc_args(names: &[&'static str], params: Params) -> (bound: Result<
    Vec<serde_json::Value>,
    InvalidArgs,
>)
    ensures
        binds(name_views(names@), params@, bound_view(bound)),
{
    let ghost declared = name_views(names@);
    let ar: Vec<serde_json::Value> = match params {
        Params::Positional(ar) => ar,
        Params::Named(members) => {
            let ghost given = map_entries(members);
            let mut ma = members;
            let mut ar: Vec<serde_json::Value> = Vec::with_capacity(names.len());
            let mut i: usize = 0;
            while i < names.len()
                invariant
                    i <= names.len(),
                    declared == name_views(names@),
                    params@ == ParamsView::Named(given),
                    ar@.len() == i,
                    forall|k: int| 0 <= k < i ==> !missing_at(declared, given, k),
                    forall|k: int| 0 <= k < i ==> ar@[k] == given[declared[k]],
                    forall|key: Seq<char>|
                        map_entries(ma).contains_key(key) <==> (given.contains_key(key) && !taken(
                            declared,
                            i as int,
                            key,
                        )),
                    forall|key: Seq<char>|
                        map_entries(ma).contains_key(key) ==> map_entries(ma)[key] == given[key],
                decreases names.len() - i,
            {
                let name: &'static str = names[i];
                match map_remove(&mut ma, name) {
                    Some(value) => {
                        ar.push(value);
                    },
                    None => {
                        assert(missing_at(declared, given, i as int));
                        return Err(InvalidArgs::MissingNamedParameter { name });
                    },
                }
                let ghost prev = i as int;
                i += 1;
                proof {
                    assert forall|key: Seq<char>|
                        map_entries(ma).contains_key(key) <==> (given.contains_key(key) && !taken(
                            declared,
                            i as int,
                            key,
                        )) by {
                        if taken(declared, prev, key) {
                            let j = choose|j: int| 0 <= j < prev && declared[j] == key;
                            assert(0 <= j < i && declared[j] == key);
                        }
                        if taken(declared, i as int, key) && key != name@ {
                            let j = choose|j: int| 0 <= j < i && declared[j] == key;
                            assert(0 <= j < prev && declared[j] == key);
                        }
                        if key == name@ {
                            assert(0 <= prev < i && declared[prev] == key);
                        }
                    }
                }
            }
            proof {
                assert forall|key: Seq<char>| taken(declared, i as int, key) == declared.contains(
                    key,
) by {}
            }
            match map_first_key(&ma) {
                Some(key) => {
                    return Err(InvalidArgs::ExtraNamedParameter { name: key });
                },
                None => ar,
            }
        },
        Params::Absent => Vec::new(),
    };
    if ar.len() != names.len() {
        Err(InvalidArgs::WrongNumberOfArgs { expected: names.len(), actual: ar.len() })
    } else {
        Ok(ar)
    }
}

impl InvalidArgs {
    /// Reports the error to the caller as invalid parameters, under a message
    /// that names the variant and what it carries.
    pub fn into_error(self) -> (error: Error)
        ensures
            error@ == self@.error(),
    {
        let message = match self {
            InvalidArgs::WrongNumberOfArgs { expected, actual } => {
                let mut text = String::from_str("WrongNumberOfArgs. Expected ");
                text.append(decimal_string(expected).as_str());
                text.append(". Actual ");
                text.append(decimal_string(actual).as_str());
                text
            },
            InvalidArgs::ExtraNamedParameter { name } => {
                let mut text = String::from_str("ExtraNamedParameter ");
                text.append(name.as_str());
                text
            },
            InvalidArgs::MissingNamedParameter { name } => {
                let mut text = String::from_str("MissingNamedParameter ");
                text.append(name);
                text
            },
            InvalidArgs::InvalidArgStructure { name, index } => {
                let mut text = String::from_str("InvalidArgStructure ");
                text.append(name);
                text.append(" at position ");
                text.append(decimal_string(index).as_str());
                text.append(".");
                text
            },
        };
        Error::invalid_params(message)
    }
}

impl From<InvalidArgs> for Error {
    /// The same conversion, for callers that write `Error::from` or `into`.
    fn from(invalid: InvalidArgs) -> (error: Error)
        ensures
            error@ == invalid@.error(),
    {
        invalid.into_error()
    }
}

impl vstd::std_specs::convert::FromSpecImpl<InvalidArgs> for Error {
    /// The conversion is stated over views, by the `ensures` of `from`.
    open spec fn obeys_from_spec() -> bool {
        false
    }

    open spec fn from_spec(invalid: InvalidArgs) -> Error {
        arbitrary()
    }
}

/// Names the argument that could not be decoded.
///
/// `decoded` is the outcome of decoding the argument at position `index`, the
/// one of the parameter `name`, into the type that the procedure declares.  A
/// decoded value is handed on; a failure becomes the error that names the
/// parameter and its position.
pub fn decode_arg<T, E>(decoded: Result<T, E>, name: &'static str, index: usize) -> (arg: Result<
    T,
    InvalidArgs,
>)
    ensures
        match decoded {
            Ok(value) => arg == Ok::<T, InvalidArgs>(value),
            Err(_) => arg == Err::<T, InvalidArgs>(InvalidArgs::InvalidArgStructure { name, index }),
        },
{
    match decoded {
        Ok(value) => Ok(value),
        Err(_) => Err(InvalidArgs::InvalidArgStructure { name, index }),
    }
}

/// Whether `decode` can decode `value` at position `index`.
pub open spec fn decodable<T, D: Fn(usize, serde_json::Value) -> Option<T>>(
    decode: D,
    index: usize,
    value: serde_json::Value,
) -> bool {
    exists|decoded: T| call_ensures(decode, (index, value), Some(decoded))
}

/// Whether `decoded` is what decoding the bound arguments `args` gives, with
/// `decode` as the decoder of each position.
///
/// Where every argument can be decoded, the outcome is the decoded values in
/// order.  Otherwise it is the error that names the parameter and the
/// position of the first argument that cannot, and decoding went no further.
pub open spec fn decodes<T, D: Fn(usize, serde_json::Value) -> Option<T>>(
    decode: D,
    names: Seq<&'static str>,
    args: Seq<serde_json::Value>,
    decoded: Result<Vec<T>, InvalidArgs>,
) -> bool {
    match decoded {
        Ok(values) => {
            &&& values@.len() == args.len()
            &&& forall|i: int|
                0 <= i < args.len() ==> call_ensures(
                    decode,
                    (i as usize, args[i]),
                    Some(#[trigger] values@[i]),
                )
        },
        Err(invalid) => exists|i: int|
            {
                &&& 0 <= i < args.len()
                &&& invalid == (InvalidArgs::InvalidArgStructure {
                    name: names[i],
                    index: i as usize,
                })
                &&& #[trigger] call_ensures(decode, (i as usize, args[i]), None::<T>)
                &&& forall|j: int|
                    0 <= j < i ==> decodable::<T, D>(decode, j as usize, #[trigger] args[j])
            },
    }
}

/// Decodes the bound arguments of a call, in declared order, each with
/// `decode` applied to its position and its value.
///
/// Stops at the first argument that `decode` cannot decode and reports the
/// parameter of that name at that position; nothing of what was decoded
/// before is returned then.
pub fn decode_args<T, D>(names: &[&'static str], args: Vec<serde_json::Value>, decode: D) -> (decoded:
    Result<Vec<T>, InvalidArgs>) where D: Fn(usize, serde_json::Value) -> Option<T>
    requires
        args@.len() == names@.len(),
        forall|index: usize, value: serde_json::Value| call_requires(decode, (index, value)),
    ensures
        decodes(decode, names@, args@, decoded),
{
    let ghost all = args@;
    let arity = names.len();
    let mut values: Vec<T> = Vec::with_capacity(arity);
    let mut index: usize = 0;
    for arg in it: args
        invariant
            it.seq() == all,
            all == args@,
            all.len() == arity,
            arity == names@.len(),
            index == it.index(),
            values@.len() == index,
            forall|index: usize, value: serde_json::Value| call_requires(decode, (index, value)),
            forall|i: int|
                0 <= i < index ==> call_ensures(
                    decode,
                    (i as usize, all[i]),
                    Some(#[trigger] values@[i]),
                ),
    {
        match decode(index, arg) {
            Some(value) => {
                values.push(value);
            },
            None => {
                proof {
                    let i = index as int;
                    assert(call_ensures(decode, (i as usize, all[i]), None::<T>));
                    assert forall|j: int| 0 <= j < index implies decodable::<T, D>(
                        decode,
                        j as usize,
                        #[trigger] all[j],
                    ) by {
                        assert(call_ensures(decode, (j as usize, all[j]), Some(values@[j])));
                    }
                }
                return Err(InvalidArgs::InvalidArgStructure { name: names[index], index });
            },
        }
        index += 1;
    }
    Ok(values)
}

} // verus!
