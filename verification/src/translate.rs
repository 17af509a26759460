//! The protocol translator: from a request envelope to a request of the
//! engine, and from the engine's answer back to a response envelope.

use vstd::prelude::*;
use crate::daemon::{DaemonRequest, DaemonRequestView, DaemonResponse, DaemonResponseView};
use crate::errors::{daemon_error_to_jsonrpc, error_data, error_message, wire_code};
use crate::json::{is_empty_object, object1, object2, Json, JsonNumber, JsonView};
use crate::text::{join, decimal, decimal_string, starts_with};
use crate::wire::{
    failure, optional_text, success, JsonRpcError, JsonRpcRequest, JsonRpcRequestView,
    JsonRpcResponse, JsonRpcResponseView,
};

verus! {

/// What `uuid::Uuid::parse_str` makes of a text: the identifier as a 128-bit
/// number, or the words of its error.
pub uninterp spec fn parsed_uuid(text: Seq<char>) -> Result<u128, Seq<char>>;

/// The view of a reading of a library identifier.
pub open spec fn reading_view(reading: Result<u128, String>) -> Result<u128, Seq<char>> {
    match reading {
        Ok(id) => Ok(id),
        Err(e) => Err(e@),
    }
}

/// The view of the reading of an optional library identifier.
pub open spec fn scope_view(scope: Option<Result<u128, String>>) -> Option<
    Result<u128, Seq<char>>,
> {
    match scope {
        Some(reading) => Some(reading_view(reading)),
        None => None,
    }
}

/// Calls `uuid::Uuid::parse_str` on `text`. The identifier comes back as
/// the number `Uuid::as_u128` gives, the error as the text its `Display`
/// writes. The parser reads nothing but its argument, so the result is
/// `parsed_uuid` of the text; nothing else is claimed of it.
#[verifier::external_body]
pub(crate) fn parse_uuid(text: &str) -> (reading: Result<u128, String>)
    ensures
        reading_view(reading) == parsed_uuid(text@),
{
    match uuid::Uuid::parse_str(text) {
        Ok(id) => Ok(id.as_u128()),
        Err(e) => Err(e.to_string()),
    }
}

/// How a request is scoped: to no library, to the library its identifier
/// names, or to nothing that can be read.
pub open spec fn scope_of(library_id: Option<Seq<char>>) -> Option<Result<u128, Seq<char>>> {
    match library_id {
        Some(text) => Some(parsed_uuid(text)),
        None => None,
    }
}

/// Reads the library identifier of a request, if it has one.
pub fn parse_library_id(library_id: &Option<String>) -> (scope: Option<Result<u128, String>>)
    ensures
        scope_view(scope) == scope_of(optional_text(*library_id)),
{
    match library_id {
        Some(text) => Some(parse_uuid(text.as_str())),
        None => None,
    }
}

/// The payload that is handed to the engine: an object with no entries
/// stands for "no input", and is handed over as null.
pub open spec fn normalized(input: JsonView) -> JsonView {
    if is_empty_object(input) {
        JsonView::Null
    } else {
        input
    }
}

/// The library a request of the engine is scoped to.
pub open spec fn library_of(scope: Option<Result<u128, Seq<char>>>) -> Option<u128> {
    match scope {
        Some(Ok(id)) => Some(id),
        _ => None,
    }
}

/// The translation of a request whose library identifier was read as
/// `scope`. An identifier that cannot be read and a method outside the
/// `query:` and `action:` namespaces are refused with the words of the
/// refusal; any other request becomes a query or an action that carries the
/// method, the library and the normalized payload, and keeps its id.
pub open spec fn translation(
    request: JsonRpcRequestView,
    scope: Option<Result<u128, Seq<char>>>,
) -> Result<(DaemonRequestView, Seq<char>), Seq<char>> {
    if scope is Some && scope->0 is Err {
        Err("Invalid library ID: "@ + scope->0->Err_0)
    } else if "query:"@.is_prefix_of(request.method) {
        Ok(
            (
                DaemonRequestView::Query {
                    method: request.method,
                    library_id: library_of(scope),
                    payload: normalized(request.params.input),
                },
                request.id,
            ),
        )
    } else if "action:"@.is_prefix_of(request.method) {
        Ok(
            (
                DaemonRequestView::Action {
                    method: request.method,
                    library_id: library_of(scope),
                    payload: normalized(request.params.input),
                },
                request.id,
            ),
        )
    } else {
        Err("Invalid method prefix: "@ + request.method)
    }
}

/// The view of a translation.
pub open spec fn translation_view(t: Result<(DaemonRequest, String), String>) -> Result<
    (DaemonRequestView, Seq<char>),
    Seq<char>,
> {
    match t {
        Ok((request, id)) => Ok((request@, id@)),
        Err(e) => Err(e@),
    }
}

fn normalize(input: Json) -> (payload: Json)
    ensures
        payload@ == normalized(input@),
{
    if input.is_empty_object() {
        Json::Null
    } else {
        input
    }
}

/// Translates a request whose library identifier was read as `scope`.
pub fn translate_request(jsonrpc: JsonRpcRequest, scope: Option<Result<u128, String>>) -> (t:
    Result<(DaemonRequest, String), String>)
    ensures
        translation_view(t) == translation(jsonrpc@, scope_view(scope)),
{
    let library_id: Option<u128> = match scope {
        Some(Ok(id)) => Some(id),
        Some(Err(e)) => {
            return Err(join("Invalid library ID: ", e.as_str()));
        },
        None => None,
    };
    let JsonRpcRequest { jsonrpc: _, method, params, id } = jsonrpc;
    if starts_with(method.as_str(), "query:") {
        let payload = normalize(params.input);
        Ok((DaemonRequest::Query { method, library_id, payload }, id))
    } else if starts_with(method.as_str(), "action:") {
        let payload = normalize(params.input);
        Ok((DaemonRequest::Action { method, library_id, payload }, id))
    } else {
        Err(join("Invalid method prefix: ", method.as_str()))
    }
}

/// Translates a request, reading its library identifier first.
pub fn convert_jsonrpc_to_daemon_request(jsonrpc: JsonRpcRequest) -> (t: Result<
    (DaemonRequest, String),
    String,
>)
    ensures
        translation_view(t) == translation(jsonrpc@, scope_of(jsonrpc@.params.library_id)),
{
    let scope = parse_library_id(&jsonrpc.params.library_id);
    translate_request(jsonrpc, scope)
}

/// The response to a request whose library identifier cannot be read.
pub open spec fn invalid_library_id(
    id: Seq<char>,
    library_id: Seq<char>,
    reason: Seq<char>,
) -> JsonRpcResponseView {
    failure(
        id,
        -32602,
        "Invalid library ID format: "@ + reason,
        "INVALID_LIBRARY_ID"@,
        Some(
            object2(
                "library_id"@,
                JsonView::Text(library_id),
                "reason"@,
                JsonView::Text(reason),
            ),
        ),
    )
}

/// The response to a request scoped to a library that is not open. It
/// echoes the identifier as the request wrote it.
pub open spec fn library_not_found(id: Seq<char>, library_id: Seq<char>) -> JsonRpcResponseView {
    failure(
        id,
        -32004,
        "Library not found or not open: "@ + library_id,
        "LIBRARY_NOT_FOUND"@,
        Some(object1("library_id"@, JsonView::Text(library_id))),
    )
}

/// The response to a request that could not be translated.
pub open spec fn invalid_method(id: Seq<char>, reason: Seq<char>) -> JsonRpcResponseView {
    failure(
        id,
        -32601,
        reason,
        "INVALID_METHOD"@,
        Some(object1("reason"@, JsonView::Text(reason))),
    )
}

/// The message of a request that outran its budget.
pub open spec fn timeout_message(method: Seq<char>, secs: u64) -> Seq<char> {
    "Request timeout after "@ + decimal(secs as nat) + "s: "@ + method
}

/// The response to a request that outran its budget of `secs` seconds.
pub open spec fn timed_out(id: Seq<char>, method: Seq<char>, secs: u64) -> JsonRpcResponseView {
    failure(
        id,
        -32000,
        timeout_message(method, secs),
        "TIMEOUT"@,
        Some(
            object2(
                "method"@,
                JsonView::Text(method),
                "timeout_secs"@,
                JsonView::Number(JsonNumber::PosInt(secs)),
            ),
        ),
    )
}

/// The response that relays an answer of the engine: its payload as the
/// result, its error through the taxonomy, and anything else as an internal
/// fault.
pub open spec fn relayed(response: DaemonResponseView, id: Seq<char>) -> JsonRpcResponseView {
    match response {
        DaemonResponseView::JsonOk(payload) => success(id, payload),
        DaemonResponseView::Error(error) => failure(
            id,
            wire_code(error.kind),
            error_message(error),
            error_data(error).error_type,
            error_data(error).details,
        ),
        DaemonResponseView::Pong => failure(
            id,
            -32603,
            "Unsupported response type"@,
            "UNSUPPORTED_RESPONSE"@,
            None,
        ),
    }
}

/// Builds the response to a request whose library identifier cannot be read.
pub fn invalid_library_id_response(id: String, library_id: &str, reason: &str) -> (r:
    JsonRpcResponse)
    ensures
        r@ == invalid_library_id(id@, library_id@, reason@),
        r@.well_formed(),
{
    let details = Json::object2(
        "library_id",
        Json::text(library_id),
        "reason",
        Json::text(reason),
    );
    JsonRpcResponse::failure(
        id,
        -32602,
        join("Invalid library ID format: ", reason),
        "INVALID_LIBRARY_ID",
        Some(details),
    )
}

/// Builds the response to a request scoped to a library that is not open.
pub fn library_not_found_response(id: String, library_id: &str) -> (r: JsonRpcResponse)
    ensures
        r@ == library_not_found(id@, library_id@),
        r@.well_formed(),
{
    let details = Json::object1("library_id", Json::text(library_id));
    JsonRpcResponse::failure(
        id,
        -32004,
        join("Library not found or not open: ", library_id),
        "LIBRARY_NOT_FOUND",
        Some(details),
    )
}

/// Builds the response to a request that could not be translated.
pub fn invalid_method_response(id: String, reason: String) -> (r: JsonRpcResponse)
    ensures
        r@ == invalid_method(id@, reason@),
        r@.well_formed(),
{
    let details = Json::object1("reason", Json::text(reason.as_str()));
    JsonRpcResponse::failure(id, -32601, reason, "INVALID_METHOD", Some(details))
}

/// Builds the response to a request that outran its budget.
pub fn timeout_response(id: String, method: &str, secs: u64) -> (r: JsonRpcResponse)
    ensures
        r@ == timed_out(id@, method@, secs),
        r@.well_formed(),
{
    let mut message = join("Request timeout after ", decimal_string(secs).as_str());
    message.append("s: ");
    message.append(method);
    let details = Json::object2("method", Json::text(method), "timeout_secs", Json::unsigned(secs));
    JsonRpcResponse::failure(id, -32000, message, "TIMEOUT", Some(details))
}

/// Relays an answer of the engine as the response to the request
/// `request_id`.
pub fn convert_daemon_response_to_jsonrpc(response: DaemonResponse, request_id: String) -> (r:
    JsonRpcResponse)
    ensures
        r@ == relayed(response@, request_id@),
        r@.well_formed(),
        r@.id == request_id@,
{
    match response {
        DaemonResponse::JsonOk(payload) => JsonRpcResponse::success(request_id, payload),
        DaemonResponse::Error(error) => {
            let (code, message, data) = daemon_error_to_jsonrpc(&error);
            JsonRpcResponse {
                jsonrpc: "2.0".to_string(),
                id: request_id,
                result: None,
                error: Some(JsonRpcError { code, message, data: Some(data) }),
            }
        },
        DaemonResponse::Pong => JsonRpcResponse::failure(
            request_id,
            -32603,
            "Unsupported response type".to_string(),
            "UNSUPPORTED_RESPONSE",
            None,
        ),
    }
}

} // verus!
