//! The error taxonomy: a fixed, total mapping from each kind of engine error
//! to the code, message, tag and details that cross the boundary.

use vstd::prelude::*;
use crate::daemon::{DaemonError, DaemonErrorKind, DaemonErrorView};
use crate::json::{object1, Json, JsonView};
use crate::text::join;
use crate::wire::{JsonRpcErrorData, JsonRpcErrorDataView};

verus! {

/// The wire code of each kind. `RequestTooLarge` shares `-32004` with the
/// "library not found" fault raised at translation; the two are told apart
/// by their tags.
pub open spec fn wire_code(kind: DaemonErrorKind) -> int {
    match kind {
        DaemonErrorKind::ConnectionFailed => -32001,
        DaemonErrorKind::ReadError => -32002,
        DaemonErrorKind::WriteError => -32003,
        DaemonErrorKind::RequestTooLarge => -32004,
        DaemonErrorKind::InvalidRequest => -32600,
        DaemonErrorKind::SerializationError => -32005,
        DaemonErrorKind::DeserializationError => -32006,
        DaemonErrorKind::HandlerNotFound => -32601,
        DaemonErrorKind::OperationFailed => -32007,
        DaemonErrorKind::CoreUnavailable => -32008,
        DaemonErrorKind::ValidationError => -32009,
        DaemonErrorKind::SecurityError => -32010,
        DaemonErrorKind::InternalError => -32603,
    }
}

/// The stable tag of each kind.
pub open spec fn error_type(kind: DaemonErrorKind) -> Seq<char> {
    match kind {
        DaemonErrorKind::ConnectionFailed => "CONNECTION_FAILED"@,
        DaemonErrorKind::ReadError => "READ_ERROR"@,
        DaemonErrorKind::WriteError => "WRITE_ERROR"@,
        DaemonErrorKind::RequestTooLarge => "REQUEST_TOO_LARGE"@,
        DaemonErrorKind::InvalidRequest => "INVALID_REQUEST"@,
        DaemonErrorKind::SerializationError => "SERIALIZATION_ERROR"@,
        DaemonErrorKind::DeserializationError => "DESERIALIZATION_ERROR"@,
        DaemonErrorKind::HandlerNotFound => "HANDLER_NOT_FOUND"@,
        DaemonErrorKind::OperationFailed => "OPERATION_FAILED"@,
        DaemonErrorKind::CoreUnavailable => "CORE_UNAVAILABLE"@,
        DaemonErrorKind::ValidationError => "VALIDATION_ERROR"@,
        DaemonErrorKind::SecurityError => "SECURITY_ERROR"@,
        DaemonErrorKind::InternalError => "INTERNAL_ERROR"@,
    }
}

/// What the message of each kind opens with, before the engine's own words.
pub open spec fn message_prefix(kind: DaemonErrorKind) -> Seq<char> {
    match kind {
        DaemonErrorKind::ConnectionFailed => "Connection failed: "@,
        DaemonErrorKind::ReadError => "Read error: "@,
        DaemonErrorKind::WriteError => "Write error: "@,
        DaemonErrorKind::RequestTooLarge => "Request too large: "@,
        DaemonErrorKind::InvalidRequest => "Invalid request: "@,
        DaemonErrorKind::SerializationError => "Serialization error: "@,
        DaemonErrorKind::DeserializationError => "Deserialization error: "@,
        DaemonErrorKind::HandlerNotFound => "Method not found: "@,
        DaemonErrorKind::OperationFailed => "Operation failed: "@,
        DaemonErrorKind::CoreUnavailable => "Core unavailable: "@,
        DaemonErrorKind::ValidationError => "Validation error: "@,
        DaemonErrorKind::SecurityError => "Security error: "@,
        DaemonErrorKind::InternalError => "Internal error: "@,
    }
}

/// The key under which the details carry the engine's words.
pub open spec fn detail_key(kind: DaemonErrorKind) -> Seq<char> {
    match kind {
        DaemonErrorKind::HandlerNotFound => "method"@,
        _ => "reason"@,
    }
}

/// The message of an error: the prefix of its kind, then the engine's words.
pub open spec fn error_message(error: DaemonErrorView) -> Seq<char> {
    message_prefix(error.kind) + error.reason
}

/// The tag and details of an error: the engine's words once more, for
/// programs to read.
pub open spec fn error_data(error: DaemonErrorView) -> JsonRpcErrorDataView {
    JsonRpcErrorDataView {
        error_type: error_type(error.kind),
        details: Some(object1(detail_key(error.kind), JsonView::Text(error.reason))),
    }
}

impl DaemonErrorKind {
    /// The wire code of the kind.
    pub fn code(self) -> (c: i32)
        ensures
            c == wire_code(self),
    {
        match self {
            DaemonErrorKind::ConnectionFailed => -32001,
            DaemonErrorKind::ReadError => -32002,
            DaemonErrorKind::WriteError => -32003,
            DaemonErrorKind::RequestTooLarge => -32004,
            DaemonErrorKind::InvalidRequest => -32600,
            DaemonErrorKind::SerializationError => -32005,
            DaemonErrorKind::DeserializationError => -32006,
            DaemonErrorKind::HandlerNotFound => -32601,
            DaemonErrorKind::OperationFailed => -32007,
            DaemonErrorKind::CoreUnavailable => -32008,
            DaemonErrorKind::ValidationError => -32009,
            DaemonErrorKind::SecurityError => -32010,
            DaemonErrorKind::InternalError => -32603,
        }
    }

    /// The stable tag of the kind.
    pub fn error_type(self) -> (t: &'static str)
        ensures
            t@ == error_type(self),
    {
        match self {
            DaemonErrorKind::ConnectionFailed => "CONNECTION_FAILED",
            DaemonErrorKind::ReadError => "READ_ERROR",
            DaemonErrorKind::WriteError => "WRITE_ERROR",
            DaemonErrorKind::RequestTooLarge => "REQUEST_TOO_LARGE",
            DaemonErrorKind::InvalidRequest => "INVALID_REQUEST",
            DaemonErrorKind::SerializationError => "SERIALIZATION_ERROR",
            DaemonErrorKind::DeserializationError => "DESERIALIZATION_ERROR",
            DaemonErrorKind::HandlerNotFound => "HANDLER_NOT_FOUND",
            DaemonErrorKind::OperationFailed => "OPERATION_FAILED",
            DaemonErrorKind::CoreUnavailable => "CORE_UNAVAILABLE",
            DaemonErrorKind::ValidationError => "VALIDATION_ERROR",
            DaemonErrorKind::SecurityError => "SECURITY_ERROR",
            DaemonErrorKind::InternalError => "INTERNAL_ERROR",
        }
    }

    /// What the message of the kind opens with.
    pub fn message_prefix(self) -> (p: &'static str)
        ensures
            p@ == message_prefix(self),
    {
        match self {
            DaemonErrorKind::ConnectionFailed => "Connection failed: ",
            DaemonErrorKind::ReadError => "Read error: ",
            DaemonErrorKind::WriteError => "Write error: ",
            DaemonErrorKind::RequestTooLarge => "Request too large: ",
            DaemonErrorKind::InvalidRequest => "Invalid request: ",
            DaemonErrorKind::SerializationError => "Serialization error: ",
            DaemonErrorKind::DeserializationError => "Deserialization error: ",
            DaemonErrorKind::HandlerNotFound => "Method not found: ",
            DaemonErrorKind::OperationFailed => "Operation failed: ",
            DaemonErrorKind::CoreUnavailable => "Core unavailable: ",
            DaemonErrorKind::ValidationError => "Validation error: ",
            DaemonErrorKind::SecurityError => "Security error: ",
            DaemonErrorKind::InternalError => "Internal error: ",
        }
    }

    /// The key under which the details carry the engine's words.
    pub fn detail_key(self) -> (k: &'static str)
        ensures
            k@ == detail_key(self),
    {
        match self {
            DaemonErrorKind::HandlerNotFound => "method",
            _ => "reason",
        }
    }
}

/// Maps an engine error to what a response says of it: the code of its kind,
/// a message for people, and the tag with details for programs.
pub fn daemon_error_to_jsonrpc(error: &DaemonError) -> (mapped: (i32, String, JsonRpcErrorData))
    ensures
        mapped.0 == wire_code(error@.kind),
        mapped.1@ == error_message(error@),
        mapped.2@ == error_data(error@),
{
    let kind = error.kind();
    let reason = error.reason();
    let message = join(kind.message_prefix(), reason);
    let details = Json::object1(kind.detail_key(), Json::text(reason));
    let data = JsonRpcErrorData { error_type: kind.error_type().to_string(), details: Some(details) };
    (kind.code(), message, data)
}

/// No two of the thirteen kinds share a code.
pub proof fn lemma_codes_distinct(a: DaemonErrorKind, b: DaemonErrorKind)
    requires
        a != b,
    ensures
        wire_code(a) != wire_code(b),
{
}

/// The codes fall in the ranges kept for them: application faults in
/// `-32099..=-32000`, or one of the protocol's own codes.
pub proof fn lemma_code_ranges(kind: DaemonErrorKind)
    ensures
        -32099 <= wire_code(kind) <= -32000 || wire_code(kind) == -32600 || wire_code(kind)
            == -32601 || wire_code(kind) == -32603,
{
}

} // verus!
