//! The request executor: one request driven from validation through
//! translation and a deadline-bound run to its response, stage by stage.
//! The stages that wait on the engine hand out what to ask and take the
//! answer back, so that no stage can be skipped and exactly one response
//! comes out of every request.

use vstd::prelude::*;
use crate::daemon::{
    DaemonError, DaemonErrorKind, DaemonErrorView, DaemonRequest, DaemonRequestView,
    DaemonResponse, DaemonResponseView,
};
use crate::json::{Json, JsonView};
use crate::timeout::{get_timeout_for_method, timeout_secs};
use crate::translate::{
    convert_daemon_response_to_jsonrpc, invalid_library_id, invalid_library_id_response,
    invalid_method, invalid_method_response, library_not_found, library_not_found_response,
    parse_library_id, relayed, scope_of, scope_view, timed_out, timeout_response, translate_request,
    translation,
};
use crate::wire::{JsonRpcRequest, JsonRpcRequestView, JsonRpcResponse, JsonRpcResponseView};

verus! {

/// What is kept of a request while the engine runs it: what the response
/// will need whether the run ends in time or not.
#[derive(Debug, PartialEq)]
pub struct Ticket {
    pub id: String,
    pub method: String,
    pub timeout_secs: u64,
}

pub struct TicketView {
    pub id: Seq<char>,
    pub method: Seq<char>,
    pub timeout_secs: u64,
}

impl View for Ticket {
    type V = TicketView;

    open spec fn view(&self) -> TicketView {
        TicketView { id: self.id@, method: self.method@, timeout_secs: self.timeout_secs }
    }
}

/// How a run under a deadline ended.
#[derive(Debug, PartialEq)]
pub enum Execution {
    Completed(DaemonResponse),
    TimedOut,
}

pub enum ExecutionView {
    Completed(DaemonResponseView),
    TimedOut,
}

impl View for Execution {
    type V = ExecutionView;

    open spec fn view(&self) -> ExecutionView {
        match self {
            Execution::Completed(response) => ExecutionView::Completed(response@),
            Execution::TimedOut => ExecutionView::TimedOut,
        }
    }
}

/// Where a request stands.
#[derive(Debug, PartialEq)]
pub enum Progress {
    /// The engine is to say whether the library is open.
    AwaitLibrary { request: JsonRpcRequest, library: u128 },
    /// The engine is to run the request, for no longer than the ticket's
    /// budget.
    AwaitExecution { call: DaemonRequest, ticket: Ticket },
    /// The response is ready.
    Done(JsonRpcResponse),
}

pub enum ProgressView {
    AwaitLibrary { request: JsonRpcRequestView, library: u128 },
    AwaitExecution { call: DaemonRequestView, ticket: TicketView },
    Done(JsonRpcResponseView),
}

impl View for Progress {
    type V = ProgressView;

    open spec fn view(&self) -> ProgressView {
        match self {
            Progress::AwaitLibrary { request, library } => ProgressView::AwaitLibrary {
                request: request@,
                library: *library,
            },
            Progress::AwaitExecution { call, ticket } => ProgressView::AwaitExecution {
                call: call@,
                ticket: ticket@,
            },
            Progress::Done(response) => ProgressView::Done(response@),
        }
    }
}

/// The library identifier as the request wrote it.
pub open spec fn library_text(request: JsonRpcRequestView) -> Seq<char> {
    match request.params.library_id {
        Some(text) => text,
        None => Seq::empty(),
    }
}

/// A request past library validation: it is translated, and either refused
/// as an invalid method or handed to the engine under the budget of its
/// method.
pub open spec fn dispatched(
    request: JsonRpcRequestView,
    scope: Option<Result<u128, Seq<char>>>,
) -> ProgressView {
    match translation(request, scope) {
        Ok((daemon_request, id)) => ProgressView::AwaitExecution {
            call: daemon_request,
            ticket: TicketView {
                id,
                method: request.method,
                timeout_secs: timeout_secs(request.method),
            },
        },
        Err(reason) => ProgressView::Done(invalid_method(request.id, reason)),
    }
}

/// The first stage. A library identifier that cannot be read ends the
/// request; one that can be read must name an open library before anything
/// else is done; a request without one goes straight to translation.
pub open spec fn started(
    request: JsonRpcRequestView,
    scope: Option<Result<u128, Seq<char>>>,
) -> ProgressView {
    match scope {
        Some(Err(reason)) => ProgressView::Done(
            invalid_library_id(request.id, library_text(request), reason),
        ),
        Some(Ok(library)) => ProgressView::AwaitLibrary { request, library },
        None => dispatched(request, scope),
    }
}

/// The stage after the engine said whether the library is open.
pub open spec fn resumed(request: JsonRpcRequestView, library: u128, open: bool) -> ProgressView {
    if open {
        dispatched(request, Some(Ok(library)))
    } else {
        ProgressView::Done(library_not_found(request.id, library_text(request)))
    }
}

/// The last stage: the answer of the engine relayed, or the timeout
/// reported with the method and the budget that was exceeded.
pub open spec fn finished(ticket: TicketView, execution: ExecutionView) -> JsonRpcResponseView {
    match execution {
        ExecutionView::Completed(response) => relayed(response, ticket.id),
        ExecutionView::TimedOut => timed_out(ticket.id, ticket.method, ticket.timeout_secs),
    }
}

/// Starts a request whose library identifier was read as `scope`.
pub fn start_request(request: JsonRpcRequest, scope: Option<Result<u128, String>>) -> (progress:
    Progress)
    ensures
        progress@ == started(request@, scope_view(scope)),
        progress matches Progress::Done(response) ==> response@.well_formed(),
{
    match scope {
        Some(Err(reason)) => {
            let JsonRpcRequest { jsonrpc: _, method: _, params, id } = request;
            let response = match params.library_id {
                Some(text) => invalid_library_id_response(id, text.as_str(), reason.as_str()),
                None => invalid_library_id_response(id, "", reason.as_str()),
            };
            proof {
                reveal_strlit("");
                assert(""@ =~= Seq::<char>::empty());
            }
            Progress::Done(response)
        },
        Some(Ok(library)) => Progress::AwaitLibrary { request, library },
        None => dispatch(request, None),
    }
}

fn dispatch(request: JsonRpcRequest, scope: Option<Result<u128, String>>) -> (progress: Progress)
    ensures
        progress@ == dispatched(request@, scope_view(scope)),
        progress matches Progress::Done(response) ==> response@.well_formed(),
{
    let id = request.id.clone();
    let method = request.method.clone();
    match translate_request(request, scope) {
        Ok((daemon_request, request_id)) => {
            let timeout_secs = get_timeout_for_method(method.as_str());
            Progress::AwaitExecution {
                call: daemon_request,
                ticket: Ticket { id: request_id, method, timeout_secs },
            }
        },
        Err(reason) => Progress::Done(invalid_method_response(id, reason)),
    }
}

/// Starts a request: reads its library identifier, then goes as far as can
/// be gone without the engine.
pub fn process_single_request(request: JsonRpcRequest) -> (progress: Progress)
    ensures
        progress@ == started(request@, scope_of(request@.params.library_id)),
        progress matches Progress::Done(response) ==> response@.well_formed(),
{
    let scope = parse_library_id(&request.params.library_id);
    start_request(request, scope)
}

/// Goes on with a request once the engine has said whether its library is
/// open.
pub fn library_checked(request: JsonRpcRequest, library: u128, open: bool) -> (progress: Progress)
    ensures
        progress@ == resumed(request@, library, open),
        progress matches Progress::Done(response) ==> response@.well_formed(),
        !(progress is AwaitLibrary),
{
    if open {
        dispatch(request, Some(Ok(library)))
    } else {
        let JsonRpcRequest { jsonrpc: _, method: _, params, id } = request;
        let response = match params.library_id {
            Some(text) => library_not_found_response(id, text.as_str()),
            None => library_not_found_response(id, ""),
        };
        proof {
            reveal_strlit("");
            assert(""@ =~= Seq::<char>::empty());
        }
        Progress::Done(response)
    }
}

impl Ticket {
    /// Ends a request with how its run ended.
    pub fn finish(self, execution: Execution) -> (response: JsonRpcResponse)
        ensures
            response@ == finished(self@, execution@),
            response@.well_formed(),
            response@.id == self@.id,
    {
        match execution {
            Execution::Completed(daemon_response) => convert_daemon_response_to_jsonrpc(
                daemon_response,
                self.id,
            ),
            Execution::TimedOut => timeout_response(self.id, self.method.as_str(), self.timeout_secs),
        }
    }
}

/// What a request of the engine comes to: an operation to run, or an answer
/// that needs no run.
#[derive(Debug, PartialEq)]
pub enum DaemonCall {
    Run { method: String, library_id: Option<u128>, payload: Json },
    Answer(DaemonResponse),
}

pub enum DaemonCallView {
    Run { method: Seq<char>, library_id: Option<u128>, payload: JsonView },
    Answer(DaemonResponseView),
}

impl View for DaemonCall {
    type V = DaemonCallView;

    open spec fn view(&self) -> DaemonCallView {
        match self {
            DaemonCall::Run { method, library_id, payload } => DaemonCallView::Run {
                method: method@,
                library_id: *library_id,
                payload: payload@,
            },
            DaemonCall::Answer(response) => DaemonCallView::Answer(response@),
        }
    }
}

/// The engine's answer that says an operation failed, in the words given.
pub open spec fn operation_failed(reason: Seq<char>) -> DaemonResponseView {
    DaemonResponseView::Error(
        DaemonErrorView { kind: DaemonErrorKind::OperationFailed, reason },
    )
}

/// Queries and actions run the same way: the operation their method names,
/// on their library and payload. Anything else is not an operation.
pub open spec fn daemon_call(request: DaemonRequestView) -> DaemonCallView {
    match request {
        DaemonRequestView::Query { method, library_id, payload } => DaemonCallView::Run {
            method,
            library_id,
            payload,
        },
        DaemonRequestView::Action { method, library_id, payload } => DaemonCallView::Run {
            method,
            library_id,
            payload,
        },
        _ => DaemonCallView::Answer(operation_failed("Unsupported request type"@)),
    }
}

/// What the engine is to do for a request.
pub fn process_daemon_request(request: DaemonRequest) -> (call: DaemonCall)
    ensures
        call@ == daemon_call(request@),
{
    match request {
        DaemonRequest::Query { method, library_id, payload } => DaemonCall::Run {
            method,
            library_id,
            payload,
        },
        DaemonRequest::Action { method, library_id, payload } => DaemonCall::Run {
            method,
            library_id,
            payload,
        },
        _ => DaemonCall::Answer(
            DaemonResponse::Error(
                DaemonError::OperationFailed("Unsupported request type".to_string()),
            ),
        ),
    }
}

/// The view of what an operation gave.
pub open spec fn outcome_view(outcome: Result<Json, String>) -> Result<JsonView, Seq<char>> {
    match outcome {
        Ok(payload) => Ok(payload@),
        Err(reason) => Err(reason@),
    }
}

/// The engine's answer for what an operation gave: its payload, or a failed
/// operation with the operation's own words.
pub open spec fn operation_response(outcome: Result<JsonView, Seq<char>>) -> DaemonResponseView {
    match outcome {
        Ok(payload) => DaemonResponseView::JsonOk(payload),
        Err(reason) => operation_failed(reason),
    }
}

/// Turns what an operation gave into the engine's answer.
pub fn daemon_response(outcome: Result<Json, String>) -> (response: DaemonResponse)
    ensures
        response@ == operation_response(outcome_view(outcome)),
{
    match outcome {
        Ok(payload) => DaemonResponse::JsonOk(payload),
        Err(reason) => DaemonResponse::Error(DaemonError::OperationFailed(reason)),
    }
}

} // verus!
