//! The protocol engine: from a request to its response.

use crate::types::{
    answer_view, call_views, output_view, output_views, response_view, Call, CallView, Error, ErrorCode,
    ErrorView, Failure, Id, IdView, MethodCall, MethodCallView, Notification, Output, OutputView, Params,
    ParamsView, Request, RequestView, Response, ResponseView, Success, Version,
};
use vstd::prelude::*;

verus! {

/// The output of a call that expects one, given the answer to it.
pub open spec fn answer_output(
    jsonrpc: Option<Version>,
    id: IdView,
    answer: Result<serde_json::Value, ErrorView>,
) -> OutputView {
    match answer {
        Ok(result) => OutputView::Success { jsonrpc, result, id },
        Err(error) => OutputView::Failure { jsonrpc, error, id },
    }
}

/// The output of a malformed call: a failure that reports an invalid request
/// under the identifier that was salvaged.
pub open spec fn invalid_output(id: IdView) -> OutputView {
    OutputView::Failure {
        jsonrpc: Some(Version::V2),
        error: ErrorView::standard(ErrorCode::InvalidRequest),
        id,
    }
}

/// A relation between a method, its parameters and an answer: the answers
/// that a server may give.
pub type Answers = spec_fn(Seq<char>, ParamsView, Result<serde_json::Value, ErrorView>) -> bool;

/// Whether `output` is what a server with the given answers may produce for
/// `call`.
///
/// A notification has no output.  A malformed call has the failure above.  A
/// method call has exactly one output, which carries its version and its
/// identifier and one of the server's answers to its method and parameters.
pub open spec fn call_outcome(answers: Answers, call: CallView, output: Option<OutputView>) -> bool {
    match call {
        CallView::Notification(_) => output is None,
        CallView::Invalid { id } => output == Some(invalid_output(id)),
        CallView::MethodCall(call) => exists|answer: Result<serde_json::Value, ErrorView>|
            #[trigger] answers(call.method, call.params, answer) && output == Some(
                answer_output(call.jsonrpc, call.id, answer),
            ),
    }
}

/// The items that are present, in order.
pub open spec fn present<T>(items: Seq<Option<T>>) -> Seq<T>
    decreases items.len(),
{
    if items.len() == 0 {
        Seq::empty()
    } else {
        let earlier = present(items.drop_last());
        match items.last() {
            Some(item) => earlier.push(item),
            None => earlier,
        }
    }
}

/// The response to a batch with the given outputs: none where there is no
/// output, else the batch of them.
pub open spec fn batch_response(outputs: Seq<OutputView>) -> Option<ResponseView> {
    if outputs.len() == 0 {
        None
    } else {
        Some(ResponseView::Batch(outputs))
    }
}

/// Whether `response` is what a server with the given answers may produce for
/// `request`.
///
/// A single call is answered by its output, if it has one.  In a batch every
/// call has its own outcome, and the response holds the outputs that are
/// present, in the order of their calls.
pub open spec fn request_outcome(
    answers: Answers,
    request: RequestView,
    response: Option<ResponseView>,
) -> bool {
    match request {
        RequestView::Single(call) => match response {
            None => call_outcome(answers, call, None),
            Some(ResponseView::Single(output)) => call_outcome(answers, call, Some(output)),
            Some(ResponseView::Batch(_)) => false,
        },
        RequestView::Batch(calls) => exists|outcomes: Seq<Option<OutputView>>|
            {
                &&& outcomes.len() == calls.len()
                &&& forall|i: int|
                    0 <= i < calls.len() ==> call_outcome(answers, calls[i], #[trigger] outcomes[i])
                &&& response == batch_response(#[trigger] present(outcomes))
            },
    }
}

/// The request that stands for a message, given what decoding it gave: the
/// decoded request, or, where the message could not be decoded, a single
/// malformed call without identifier.
pub open spec fn decoded_request(decoded: Option<RequestView>) -> RequestView {
    match decoded {
        Some(request) => request,
        None => RequestView::Single(CallView::Invalid { id: IdView::Null }),
    }
}

/// The view of a request that may be absent.
pub open spec fn request_view(request: Option<Request>) -> Option<RequestView> {
    match request {
        Some(request) => Some(request@),
        None => None,
    }
}

/// Makes the output of a method call from the answer to it.
pub fn method_call_output(
    jsonrpc: Option<Version>,
    id: Id,
    answer: Result<serde_json::Value, Error>,
) -> (output: Output)
    ensures
        output@ == answer_output(jsonrpc, id@, answer_view(answer)),
{
    match answer {
        Ok(result) => Output::Success(Success { jsonrpc, result, id }),
        Err(error) => Output::Failure(Failure { jsonrpc, error, id }),
    }
}

/// A server of remote procedures.
///
/// An implementation says in `handle` how a method is carried out; the
/// protocol around a call is provided.
pub trait JSONRPCServer {
    /// The answers that `handle` may give.  An implementation that promises
    /// nothing leaves this as it is: any answer to any call.
    open spec fn answers(&self) -> Answers {
        |method: Seq<char>, params: ParamsView, answer: Result<serde_json::Value, ErrorView>| true
    }

    /// Carries out `method` with `params`.
    fn handle(&self, method: &str, params: Params) -> (answer: Result<serde_json::Value, Error>)
        ensures
            (self.answers())(method@, params@, answer_view(answer)),
    ;

    /// Handles one call.
    fn handle_call(&self, call: Call) -> (output: Option<Output>)
        ensures
            call_outcome(self.answers(), call@, output_view(output)),
    {
        match call {
            Call::Notification(Notification { method, params, .. }) => {
                let _ = self.handle(method.as_str(), params);
                None
            },
            Call::MethodCall(MethodCall { method, params, id, jsonrpc }) => {
                let ghost view = MethodCallView { jsonrpc, method: method@, params: params@, id: id@ };
                let answer = self.handle(method.as_str(), params);
                let ghost given = answer_view(answer);
                assert((self.answers())(view.method, view.params, given));
                Some(method_call_output(jsonrpc, id, answer))
            },
            Call::Invalid { id } => Some(
                Output::Failure(
                    Failure { jsonrpc: Some(Version::V2), error: Error::invalid_request(), id },
                ),
            ),
        }
    }

    /// Handles a request: a single call or a batch of calls.
    fn handle_parsed(&self, request: Request) -> (response: Option<Response>)
        ensures
            request_outcome(self.answers(), request@, response_view(response)),
    {
        match request {
            Request::Single(call) => {
                match self.handle_call(call) {
                    Some(output) => Some(Response::Single(output)),
                    None => None,
                }
            },
            Request::Batch(calls) => {
                let ghost all = calls@;
                let ghost views = call_views(all);
                let ghost mut outcomes: Seq<Option<OutputView>> = Seq::empty();
                let mut outputs: Vec<Output> = Vec::new();
                for call in it: calls
                    invariant
                        it.seq() == all,
                        views == call_views(all),
                        outcomes.len() == it.index(),
                        forall|i: int|
                            0 <= i < outcomes.len() ==> call_outcome(
                                self.answers(),
                                views[i],
                                #[trigger] outcomes[i],
                            ),
                        output_views(outputs@) == present(outcomes),
                {
                    let output = self.handle_call(call);
                    proof {
                        let outcome = output_view(output);
                        assert(outcomes.push(outcome).drop_last() =~= outcomes);
                        outcomes = outcomes.push(outcome);
                    }
                    match output {
                        Some(output) => {
                            outputs.push(output);
                        },
                        None => {},
                    }
                }
                if outputs.is_empty() {
                    None
                } else {
                    Some(Response::Batch(outputs))
                }
            },
        }
    }

    /// Handles a message, given what decoding it gave.  A message that could
    /// not be decoded is answered as a single malformed call without
    /// identifier.
    fn handle_decoded(&self, decoded: Option<Request>) -> (response: Option<Response>)
        ensures
            request_outcome(
                self.answers(),
                decoded_request(request_view(decoded)),
                response_view(response),
            ),
    {
        let request = match decoded {
            Some(request) => request,
            None => Request::Single(Call::Invalid { id: Id::Null }),
        };
        self.handle_parsed(request)
    }
}

} // verus!
