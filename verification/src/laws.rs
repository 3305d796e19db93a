//! Laws of binding, of the protocol engine and of result encoding, each
//! proved from the specifications that the functions' contracts use.

use crate::args::{bind_positional, binds, missing_at, name_views, InvalidArgs, InvalidArgsView};
use crate::registry::{registered, registry_answers, well_formed, Procedure};
use crate::result::{failure_error, ToRPCResult};
use crate::server::{batch_response, call_outcome, present, request_outcome, Answers};
use crate::types::{
    CallView, ErrorCode, ErrorView, IdView, OutputView, ParamsView, RequestView, ResponseView,
};
use vstd::prelude::*;

verus! {

/// Whether no name occurs twice among the declared names.
pub open spec fn distinct(names: Seq<Seq<char>>) -> bool {
    forall|i: int, j: int| 0 <= i < j < names.len() ==> names[i] != names[j]
}

/// A binding that succeeds has exactly one value for each declared name.
pub proof fn binding_has_one_value_per_name(
    names: Seq<Seq<char>>,
    params: ParamsView,
    values: Seq<serde_json::Value>,
)
    requires
        binds(names, params, Ok(values)),
    ensures
        values.len() == names.len(),
{
}

/// A positional payload with one value per declared name binds to its values,
/// unchanged.
pub proof fn positional_match_binds_unchanged(
    names: Seq<Seq<char>>,
    values: Seq<serde_json::Value>,
    bound: Result<Seq<serde_json::Value>, InvalidArgsView>,
)
    requires
        binds(names, ParamsView::Positional(values), bound),
        values.len() == names.len(),
    ensures
        bound == Ok::<Seq<serde_json::Value>, InvalidArgsView>(values),
{
}

/// A positional payload of another length than the declared names fails with
/// the number of declared names as expected and its own length as actual.
pub proof fn positional_mismatch_reports_counts(
    names: Seq<Seq<char>>,
    values: Seq<serde_json::Value>,
    bound: Result<Seq<serde_json::Value>, InvalidArgsView>,
)
    requires
        binds(names, ParamsView::Positional(values), bound),
        values.len() != names.len(),
    ensures
        bound == Err::<Seq<serde_json::Value>, InvalidArgsView>(
            InvalidArgsView::WrongNumberOfArgs { expected: names.len(), actual: values.len() },
        ),
{
}

/// A named payload that lacks a declared name, and has every declared name
/// before it, fails with that name as missing.
pub proof fn missing_name_is_reported(
    names: Seq<Seq<char>>,
    members: Map<Seq<char>, serde_json::Value>,
    i: int,
    bound: Result<Seq<serde_json::Value>, InvalidArgsView>,
)
    requires
        distinct(names),
        binds(names, ParamsView::Named(members), bound),
        0 <= i < names.len(),
        !members.contains_key(names[i]),
        forall|j: int| 0 <= j < i ==> members.contains_key(names[j]),
    ensures
        bound == Err::<Seq<serde_json::Value>, InvalidArgsView>(
            InvalidArgsView::MissingNamedParameter { name: names[i] },
        ),
{
    assert(missing_at(names, members, i));
    assert forall|j: int| 0 <= j < i implies !missing_at(names, members, j) by {}
}

/// A named payload that has every declared name, and a member that is no
/// declared name, fails with such a member as extra.
pub proof fn extra_member_is_reported(
    names: Seq<Seq<char>>,
    members: Map<Seq<char>, serde_json::Value>,
    key: Seq<char>,
    bound: Result<Seq<serde_json::Value>, InvalidArgsView>,
)
    requires
        distinct(names),
        binds(names, ParamsView::Named(members), bound),
        forall|i: int| 0 <= i < names.len() ==> members.contains_key(names[i]),
        members.contains_key(key),
        !names.contains(key),
    ensures
        bound matches Err(InvalidArgsView::ExtraNamedParameter { name }) && members.contains_key(
            name,
        ) && !names.contains(name),
{
    assert forall|i: int| 0 <= i < names.len() implies !missing_at(names, members, i) by {}
}

/// An absent payload binds exactly as an empty positional payload does,
/// whatever the declared names.
pub proof fn absent_binds_as_empty_positional(
    names: Seq<Seq<char>>,
    bound: Result<Seq<serde_json::Value>, InvalidArgsView>,
)
    ensures
        binds(names, ParamsView::Absent, bound) == binds(
            names,
            ParamsView::Positional(Seq::empty()),
            bound,
        ),
        binds(names, ParamsView::Absent, bound) == (bound == bind_positional(
            names,
            Seq::empty(),
        )),
{
}

/// A notification has no output, whatever the server answers: also where its
/// method is unknown or its parameters cannot be bound.
pub proof fn notification_has_no_output(
    answers: Answers,
    call: CallView,
    output: Option<OutputView>,
)
    requires
        call is Notification,
        call_outcome(answers, call, output),
    ensures
        output is None,
{
}

/// A request that is a single notification has no response.
pub proof fn notification_has_no_response(
    answers: Answers,
    call: CallView,
    response: Option<ResponseView>,
)
    requires
        call is Notification,
        request_outcome(answers, RequestView::Single(call), response),
    ensures
        response is None,
{
}

/// Every call that is no notification has exactly one output, and that
/// output echoes the identifier of the call.
pub proof fn answered_call_has_one_output(
    answers: Answers,
    call: CallView,
    output: Option<OutputView>,
)
    requires
        !(call is Notification),
        call_outcome(answers, call, output),
    ensures
        output matches Some(out) && out.id() == call_id(call),
{
}

/// The identifier of a call that carries one; a notification carries none.
pub open spec fn call_id(call: CallView) -> IdView {
    match call {
        CallView::MethodCall(call) => call.id,
        CallView::Invalid { id } => id,
        CallView::Notification(_) => IdView::Null,
    }
}

/// The calls that are no notifications, in order.
pub open spec fn answered(calls: Seq<CallView>) -> Seq<CallView>
    decreases calls.len(),
{
    if calls.len() == 0 {
        Seq::empty()
    } else {
        let earlier = answered(calls.drop_last());
        if calls.last() is Notification {
            earlier
        } else {
            earlier.push(calls.last())
        }
    }
}

/// The identifiers of the calls that are no notifications, in order.
pub open spec fn answered_ids(calls: Seq<CallView>) -> Seq<IdView> {
    Seq::new(answered(calls).len(), |k: int| call_id(answered(calls)[k]))
}

/// The identifiers that a list of outputs echoes, in order.
pub open spec fn output_ids(outputs: Seq<OutputView>) -> Seq<IdView> {
    Seq::new(outputs.len(), |k: int| outputs[k].id())
}

/// The outputs that a response to a batch holds: none where there is no
/// response.
pub open spec fn batch_outputs(response: Option<ResponseView>) -> Seq<OutputView> {
    match response {
        Some(ResponseView::Batch(outputs)) => outputs,
        _ => Seq::empty(),
    }
}

/// The outputs that are present among the outcomes of a batch are, one for
/// one and in order, outputs of the calls that are no notifications.
proof fn present_outcomes_follow_calls(
    answers: Answers,
    calls: Seq<CallView>,
    outcomes: Seq<Option<OutputView>>,
)
    requires
        outcomes.len() == calls.len(),
        forall|i: int|
            0 <= i < calls.len() ==> call_outcome(answers, calls[i], #[trigger] outcomes[i]),
    ensures
        present(outcomes).len() == answered(calls).len(),
        forall|k: int|
            0 <= k < answered(calls).len() ==> call_outcome(
                answers,
                #[trigger] answered(calls)[k],
                Some(present(outcomes)[k]),
            ),
    decreases calls.len(),
{
    if calls.len() > 0 {
        present_outcomes_follow_calls(answers, calls.drop_last(), outcomes.drop_last());
    }
}

/// The response to a batch holds one output for each call that is no
/// notification, in the order of the calls, and nothing else: the output at
/// each position is an output of the call at that position among the calls
/// that are no notifications, and echoes its identifier.  There is a response
/// exactly where there is such a call, and it is never a single output.
pub proof fn batch_outputs_follow_calls(
    answers: Answers,
    calls: Seq<CallView>,
    response: Option<ResponseView>,
)
    requires
        request_outcome(answers, RequestView::Batch(calls), response),
    ensures
        !(response matches Some(ResponseView::Single(_))),
        response is None <==> answered(calls).len() == 0,
        batch_outputs(response).len() == answered(calls).len(),
        forall|k: int|
            0 <= k < answered(calls).len() ==> call_outcome(
                answers,
                #[trigger] answered(calls)[k],
                Some(batch_outputs(response)[k]),
            ),
        output_ids(batch_outputs(response)) == answered_ids(calls),
{
    let outcomes = choose|outcomes: Seq<Option<OutputView>>|
        {
            &&& outcomes.len() == calls.len()
            &&& forall|i: int|
                0 <= i < calls.len() ==> call_outcome(answers, calls[i], #[trigger] outcomes[i])
            &&& response == batch_response(#[trigger] present(outcomes))
        };
    present_outcomes_follow_calls(answers, calls, outcomes);
    answered_holds_no_notification(calls);
}

/// None of the calls that are no notifications is a notification.
proof fn answered_holds_no_notification(calls: Seq<CallView>)
    ensures
        forall|k: int| 0 <= k < answered(calls).len() ==> !(#[trigger] answered(calls)[k] is Notification),
    decreases calls.len(),
{
    if calls.len() > 0 {
        answered_holds_no_notification(calls.drop_last());
    }
}

/// Among notifications alone there is no call that is no notification.
proof fn notifications_are_not_answered(calls: Seq<CallView>)
    requires
        forall|i: int| 0 <= i < calls.len() ==> #[trigger] calls[i] is Notification,
    ensures
        answered(calls).len() == 0,
    decreases calls.len(),
{
    if calls.len() > 0 {
        notifications_are_not_answered(calls.drop_last());
    }
}

/// A batch without calls, or of notifications alone, has no response.
pub proof fn silent_batch_has_no_response(
    answers: Answers,
    calls: Seq<CallView>,
    response: Option<ResponseView>,
)
    requires
        request_outcome(answers, RequestView::Batch(calls), response),
        forall|i: int| 0 <= i < calls.len() ==> #[trigger] calls[i] is Notification,
    ensures
        response is None,
{
    notifications_are_not_answered(calls);
    batch_outputs_follow_calls(answers, calls, response);
}

/// The failure payload of a procedure travels unchanged: the answer made from
/// it is a server error whose data is that payload.
pub proof fn failure_payload_round_trip(payload: serde_json::Value)
    ensures
        Err::<serde_json::Value, serde_json::Value>(payload).rpc_result() matches Err(error)
            && error == failure_error(payload) && error.data == Some(payload),
{
}

/// A call of a method that is not registered is answered with the error that
/// the method was not found.
pub proof fn unknown_method_is_not_found<
    R: ToRPCResult,
    F: Fn(Vec<serde_json::Value>) -> Result<R, InvalidArgs>,
>(
    procedures: Seq<Procedure<F>>,
    method: Seq<char>,
    params: ParamsView,
    answer: Result<serde_json::Value, ErrorView>,
)
    requires
        !registered(procedures, method),
        registry_answers(procedures, method, params, answer),
    ensures
        answer == Err::<serde_json::Value, ErrorView>(
            ErrorView::standard(ErrorCode::MethodNotFound),
        ),
{
}

/// A call whose parameters cannot be bound to the declared names of its
/// method is answered with what the binding reports, as invalid parameters.
pub proof fn unbound_call_is_invalid_params<
    R: ToRPCResult,
    F: Fn(Vec<serde_json::Value>) -> Result<R, InvalidArgs>,
>(
    procedures: Seq<Procedure<F>>,
    i: int,
    params: ParamsView,
    answer: Result<serde_json::Value, ErrorView>,
)
    requires
        well_formed(procedures),
        0 <= i < procedures.len(),
        registry_answers(procedures, procedures[i].name@, params, answer),
        forall|bound: Result<Seq<serde_json::Value>, InvalidArgsView>|
            binds(name_views(procedures[i].arg_names@), params, bound)
                ==> bound is Err,
    ensures
        answer matches Err(error) && error.code == ErrorCode::InvalidParams,
        exists|invalid: InvalidArgsView| #[trigger]
            binds(
                name_views(procedures[i].arg_names@),
                params,
                Err::<Seq<serde_json::Value>, InvalidArgsView>(invalid),
            ) && answer == Err::<serde_json::Value, ErrorView>(invalid.error()),
{
}

} // verus!
