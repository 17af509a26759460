//! The envelopes that cross the boundary: requests, responses and the error
//! object a response may carry.

use vstd::prelude::*;
use crate::json::{optional_view, Json, JsonView};

verus! {

/// The protocol version tag that every response carries.
pub open spec fn protocol_version() -> Seq<char> {
    "2.0"@
}

/// What a request asks for: the input of the operation, and the library it
/// is scoped to, if any.
#[derive(Debug, PartialEq)]
pub struct JsonRpcParams {
    pub input: Json,
    pub library_id: Option<String>,
}

/// A request envelope. The `id` is the caller's: it is echoed, never read.
#[derive(Debug, PartialEq)]
pub struct JsonRpcRequest {
    pub jsonrpc: String,
    pub method: String,
    pub params: JsonRpcParams,
    pub id: String,
}

/// The machine-readable part of an error: a stable tag and free-form details.
#[derive(Debug, PartialEq)]
pub struct JsonRpcErrorData {
    pub error_type: String,
    pub details: Option<Json>,
}

/// The error object of a response.
#[derive(Debug, PartialEq)]
pub struct JsonRpcError {
    pub code: i32,
    pub message: String,
    pub data: Option<JsonRpcErrorData>,
}

/// A response envelope. A well-formed one carries a result or an error,
/// never both and never neither.
#[derive(Debug, PartialEq)]
pub struct JsonRpcResponse {
    pub jsonrpc: String,
    pub id: String,
    pub result: Option<Json>,
    pub error: Option<JsonRpcError>,
}

pub struct JsonRpcParamsView {
    pub input: JsonView,
    pub library_id: Option<Seq<char>>,
}

pub struct JsonRpcRequestView {
    pub jsonrpc: Seq<char>,
    pub method: Seq<char>,
    pub params: JsonRpcParamsView,
    pub id: Seq<char>,
}

pub struct JsonRpcErrorDataView {
    pub error_type: Seq<char>,
    pub details: Option<JsonView>,
}

pub struct JsonRpcErrorView {
    pub code: int,
    pub message: Seq<char>,
    pub data: Option<JsonRpcErrorDataView>,
}

pub struct JsonRpcResponseView {
    pub jsonrpc: Seq<char>,
    pub id: Seq<char>,
    pub result: Option<JsonView>,
    pub error: Option<JsonRpcErrorView>,
}

/// The view of an optional text.
pub open spec fn optional_text(s: Option<String>) -> Option<Seq<char>> {
    match s {
        Some(s) => Some(s@),
        None => None,
    }
}

impl View for JsonRpcParams {
    type V = JsonRpcParamsView;

    open spec fn view(&self) -> JsonRpcParamsView {
        JsonRpcParamsView { input: self.input@, library_id: optional_text(self.library_id) }
    }
}

impl View for JsonRpcRequest {
    type V = JsonRpcRequestView;

    open spec fn view(&self) -> JsonRpcRequestView {
        JsonRpcRequestView {
            jsonrpc: self.jsonrpc@,
            method: self.method@,
            params: self.params@,
            id: self.id@,
        }
    }
}

impl View for JsonRpcErrorData {
    type V = JsonRpcErrorDataView;

    open spec fn view(&self) -> JsonRpcErrorDataView {
        JsonRpcErrorDataView { error_type: self.error_type@, details: optional_view(self.details) }
    }
}

impl View for JsonRpcError {
    type V = JsonRpcErrorView;

    open spec fn view(&self) -> JsonRpcErrorView {
        JsonRpcErrorView {
            code: self.code as int,
            message: self.message@,
            data: match self.data {
                Some(d) => Some(d@),
                None => None,
            },
        }
    }
}

impl View for JsonRpcResponse {
    type V = JsonRpcResponseView;

    open spec fn view(&self) -> JsonRpcResponseView {
        JsonRpcResponseView {
            jsonrpc: self.jsonrpc@,
            id: self.id@,
            result: optional_view(self.result),
            error: match self.error {
                Some(e) => Some(e@),
                None => None,
            },
        }
    }
}

impl JsonRpcResponseView {
    /// Exactly one of result and error is there, under the protocol's version.
    pub open spec fn well_formed(self) -> bool {
        &&& self.jsonrpc == protocol_version()
        &&& (self.result is Some) != (self.error is Some)
    }
}

/// The response that carries `result` for the request `id`.
pub open spec fn success(id: Seq<char>, result: JsonView) -> JsonRpcResponseView {
    JsonRpcResponseView { jsonrpc: protocol_version(), id, result: Some(result), error: None }
}

/// The response that reports an error with its tag and details.
pub open spec fn failure(
    id: Seq<char>,
    code: int,
    message: Seq<char>,
    error_type: Seq<char>,
    details: Option<JsonView>,
) -> JsonRpcResponseView {
    JsonRpcResponseView {
        jsonrpc: protocol_version(),
        id,
        result: None,
        error: Some(
            JsonRpcErrorView {
                code,
                message,
                data: Some(JsonRpcErrorDataView { error_type, details }),
            },
        ),
    }
}

/// The response that reports an error that has no tag: one raised before
/// any request could be read.
pub open spec fn bare_failure(id: Seq<char>, code: int, message: Seq<char>) -> JsonRpcResponseView {
    JsonRpcResponseView {
        jsonrpc: protocol_version(),
        id,
        result: None,
        error: Some(JsonRpcErrorView { code, message, data: None }),
    }
}

impl JsonRpcResponse {
    /// The response that carries `result` for the request `id`.
    pub fn success(id: String, result: Json) -> (r: JsonRpcResponse)
        ensures
            r@ == success(id@, result@),
            r@.well_formed(),
    {
        JsonRpcResponse { jsonrpc: "2.0".to_string(), id, result: Some(result), error: None }
    }

    /// The response that reports an error with its tag and details.
    pub fn failure(
        id: String,
        code: i32,
        message: String,
        error_type: &str,
        details: Option<Json>,
    ) -> (r: JsonRpcResponse)
        ensures
            r@ == failure(id@, code as int, message@, error_type@, optional_view(details)),
            r@.well_formed(),
    {
        JsonRpcResponse {
            jsonrpc: "2.0".to_string(),
            id,
            result: None,
            error: Some(
                JsonRpcError {
                    code,
                    message,
                    data: Some(JsonRpcErrorData { error_type: error_type.to_string(), details }),
                },
            ),
        }
    }

    /// The response that reports an error that has no tag.
    pub fn bare_failure(id: String, code: i32, message: String) -> (r: JsonRpcResponse)
        ensures
            r@ == bare_failure(id@, code as int, message@),
            r@.well_formed(),
    {
        JsonRpcResponse {
            jsonrpc: "2.0".to_string(),
            id,
            result: None,
            error: Some(JsonRpcError { code, message, data: None }),
        }
    }
}

} // verus!
