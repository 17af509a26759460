//! The engine's side of the conversation: the requests it takes, the
//! responses it gives and the errors it reports.

use vstd::prelude::*;
use crate::json::{Json, JsonView};

verus! {

/// The thirteen kinds of error the engine reports.
#[derive(Clone, Copy, Debug, PartialEq, Eq)]
pub enum DaemonErrorKind {
    ConnectionFailed,
    ReadError,
    WriteError,
    RequestTooLarge,
    InvalidRequest,
    SerializationError,
    DeserializationError,
    HandlerNotFound,
    OperationFailed,
    CoreUnavailable,
    ValidationError,
    SecurityError,
    InternalError,
}

/// An error of the engine: its kind, with the engine's own words for what
/// went wrong (for `HandlerNotFound`, the name of the method).
#[derive(Debug, PartialEq, Eq)]
pub enum DaemonError {
    ConnectionFailed(String),
    ReadError(String),
    WriteError(String),
    RequestTooLarge(String),
    InvalidRequest(String),
    SerializationError(String),
    DeserializationError(String),
    HandlerNotFound(String),
    OperationFailed(String),
    CoreUnavailable(String),
    ValidationError(String),
    SecurityError(String),
    InternalError(String),
}

/// What an engine error says: its kind and the engine's words.
pub struct DaemonErrorView {
    pub kind: DaemonErrorKind,
    pub reason: Seq<char>,
}

impl View for DaemonError {
    type V = DaemonErrorView;

    open spec fn view(&self) -> DaemonErrorView {
        match self {
            DaemonError::ConnectionFailed(m) => DaemonErrorView {
                kind: DaemonErrorKind::ConnectionFailed,
                reason: m@,
            },
            DaemonError::ReadError(m) => DaemonErrorView {
                kind: DaemonErrorKind::ReadError,
                reason: m@,
            },
            DaemonError::WriteError(m) => DaemonErrorView {
                kind: DaemonErrorKind::WriteError,
                reason: m@,
            },
            DaemonError::RequestTooLarge(m) => DaemonErrorView {
                kind: DaemonErrorKind::RequestTooLarge,
                reason: m@,
            },
            DaemonError::InvalidRequest(m) => DaemonErrorView {
                kind: DaemonErrorKind::InvalidRequest,
                reason: m@,
            },
            DaemonError::SerializationError(m) => DaemonErrorView {
                kind: DaemonErrorKind::SerializationError,
                reason: m@,
            },
            DaemonError::DeserializationError(m) => DaemonErrorView {
                kind: DaemonErrorKind::DeserializationError,
                reason: m@,
            },
            DaemonError::HandlerNotFound(m) => DaemonErrorView {
                kind: DaemonErrorKind::HandlerNotFound,
                reason: m@,
            },
            DaemonError::OperationFailed(m) => DaemonErrorView {
                kind: DaemonErrorKind::OperationFailed,
                reason: m@,
            },
            DaemonError::CoreUnavailable(m) => DaemonErrorView {
                kind: DaemonErrorKind::CoreUnavailable,
                reason: m@,
            },
            DaemonError::ValidationError(m) => DaemonErrorView {
                kind: DaemonErrorKind::ValidationError,
                reason: m@,
            },
            DaemonError::SecurityError(m) => DaemonErrorView {
                kind: DaemonErrorKind::SecurityError,
                reason: m@,
            },
            DaemonError::InternalError(m) => DaemonErrorView {
                kind: DaemonErrorKind::InternalError,
                reason: m@,
            },
        }
    }
}

impl DaemonError {
    /// The kind of the error.
    pub fn kind(&self) -> (k: DaemonErrorKind)
        ensures
            k == self@.kind,
    {
        match self {
            DaemonError::ConnectionFailed(_) => DaemonErrorKind::ConnectionFailed,
            DaemonError::ReadError(_) => DaemonErrorKind::ReadError,
            DaemonError::WriteError(_) => DaemonErrorKind::WriteError,
            DaemonError::RequestTooLarge(_) => DaemonErrorKind::RequestTooLarge,
            DaemonError::InvalidRequest(_) => DaemonErrorKind::InvalidRequest,
            DaemonError::SerializationError(_) => DaemonErrorKind::SerializationError,
            DaemonError::DeserializationError(_) => DaemonErrorKind::DeserializationError,
            DaemonError::HandlerNotFound(_) => DaemonErrorKind::HandlerNotFound,
            DaemonError::OperationFailed(_) => DaemonErrorKind::OperationFailed,
            DaemonError::CoreUnavailable(_) => DaemonErrorKind::CoreUnavailable,
            DaemonError::ValidationError(_) => DaemonErrorKind::ValidationError,
            DaemonError::SecurityError(_) => DaemonErrorKind::SecurityError,
            DaemonError::InternalError(_) => DaemonErrorKind::InternalError,
        }
    }

    /// The engine's words for what went wrong.
    pub fn reason(&self) -> (m: &str)
        ensures
            m@ == self@.reason,
    {
        match self {
            DaemonError::ConnectionFailed(m) => m.as_str(),
            DaemonError::ReadError(m) => m.as_str(),
            DaemonError::WriteError(m) => m.as_str(),
            DaemonError::RequestTooLarge(m) => m.as_str(),
            DaemonError::InvalidRequest(m) => m.as_str(),
            DaemonError::SerializationError(m) => m.as_str(),
            DaemonError::DeserializationError(m) => m.as_str(),
            DaemonError::HandlerNotFound(m) => m.as_str(),
            DaemonError::OperationFailed(m) => m.as_str(),
            DaemonError::CoreUnavailable(m) => m.as_str(),
            DaemonError::ValidationError(m) => m.as_str(),
            DaemonError::SecurityError(m) => m.as_str(),
            DaemonError::InternalError(m) => m.as_str(),
        }
    }
}

/// A request to the engine. `Query` and `Action` run the operation that
/// `method` names; the other kinds are not operations.
#[derive(Debug, PartialEq)]
pub enum DaemonRequest {
    Ping,
    Query { method: String, library_id: Option<u128>, payload: Json },
    Action { method: String, library_id: Option<u128>, payload: Json },
    Shutdown,
}

/// What the engine answers.
#[derive(Debug, PartialEq)]
pub enum DaemonResponse {
    Pong,
    JsonOk(Json),
    Error(DaemonError),
}

pub enum DaemonRequestView {
    Ping,
    Query { method: Seq<char>, library_id: Option<u128>, payload: JsonView },
    Action { method: Seq<char>, library_id: Option<u128>, payload: JsonView },
    Shutdown,
}

pub enum DaemonResponseView {
    Pong,
    JsonOk(JsonView),
    Error(DaemonErrorView),
}

impl View for DaemonRequest {
    type V = DaemonRequestView;

    open spec fn view(&self) -> DaemonRequestView {
        match self {
            DaemonRequest::Ping => DaemonRequestView::Ping,
            DaemonRequest::Query { method, library_id, payload } => DaemonRequestView::Query {
                method: method@,
                library_id: *library_id,
                payload: payload@,
            },
            DaemonRequest::Action { method, library_id, payload } => DaemonRequestView::Action {
                method: method@,
                library_id: *library_id,
                payload: payload@,
            },
            DaemonRequest::Shutdown => DaemonRequestView::Shutdown,
        }
    }
}

impl View for DaemonResponse {
    type V = DaemonResponseView;

    open spec fn view(&self) -> DaemonResponseView {
        match self {
            DaemonResponse::Pong => DaemonResponseView::Pong,
            DaemonResponse::JsonOk(j) => DaemonResponseView::JsonOk(j@),
            DaemonResponse::Error(e) => DaemonResponseView::Error(e@),
        }
    }
}

} // verus!
