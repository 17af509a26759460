use sd_mobile_core::daemon::{DaemonError, DaemonRequest, DaemonResponse};
use sd_mobile_core::exchange::{handle_json_rpc_request, parse_error_response, Parsed, Reply, Step};
use sd_mobile_core::executor::{
    daemon_response, library_checked, process_daemon_request, process_single_request,
    start_request, DaemonCall, Execution, Progress,
};
use sd_mobile_core::json::{Json, JsonNumber};
use sd_mobile_core::wire::{
    JsonRpcError, JsonRpcErrorData, JsonRpcParams, JsonRpcRequest, JsonRpcResponse,
};

const LIBRARY: &str = "67e55044-10b1-426f-9247-bb680e5fe0c8";
const LIBRARY_NUMBER: u128 = 0x67e55044_10b1_426f_9247_bb680e5fe0c8;

fn request(method: &str, input: Json, library_id: Option<&str>, id: &str) -> JsonRpcRequest {
    JsonRpcRequest {
        jsonrpc: "2.0".to_string(),
        method: method.to_string(),
        params: JsonRpcParams { input, library_id: library_id.map(|s| s.to_string()) },
        id: id.to_string(),
    }
}

fn text(s: &str) -> Json {
    Json::Text(s.to_string())
}

fn object(entries: Vec<(&str, Json)>) -> Json {
    Json::Object(entries.into_iter().map(|(k, v)| (k.to_string(), v)).collect())
}

fn success(id: &str, result: Json) -> JsonRpcResponse {
    JsonRpcResponse { jsonrpc: "2.0".to_string(), id: id.to_string(), result: Some(result), error: None }
}

fn failure(id: &str, code: i32, message: &str, tag: &str, details: Option<Json>) -> JsonRpcResponse {
    JsonRpcResponse {
        jsonrpc: "2.0".to_string(),
        id: id.to_string(),
        result: None,
        error: Some(JsonRpcError {
            code,
            message: message.to_string(),
            data: Some(JsonRpcErrorData { error_type: tag.to_string(), details }),
        }),
    }
}

/// Plays the engine: every library but `closed` is open, and a run gives
/// back its method and payload, fails, or outlives its budget, by the
/// method's last word. It counts the runs and the lookups.
struct Engine {
    closed: Option<u128>,
    runs: Vec<(String, Option<u128>, Json, u64)>,
    lookups: Vec<u128>,
}

fn drive(engine: &mut Engine, mut step: Step) -> Reply {
    loop {
        step = match step {
            Step::Finished(reply) => return reply,
            Step::LookupLibrary(pending) => {
                let library = pending.library();
                engine.lookups.push(library);
                pending.library_checked(engine.closed != Some(library))
            }
            Step::Execute { request, pending } => {
                let budget = pending.timeout_secs();
                let execution = match process_daemon_request(request) {
                    DaemonCall::Answer(response) => Execution::Completed(response),
                    DaemonCall::Run { method, library_id, payload } => {
                        assert_eq!(pending.method(), method);
                        let outcome = if method.ends_with(".hang") {
                            None
                        } else if method.ends_with(".fail") {
                            Some(Err("it broke".to_string()))
                        } else {
                            Some(Ok(object(vec![("method", text(&method))])))
                        };
                        engine.runs.push((method, library_id, payload, budget));
                        match outcome {
                            None => Execution::TimedOut,
                            Some(result) => Execution::Completed(daemon_response(result)),
                        }
                    }
                };
                pending.executed(execution)
            }
        };
    }
}

fn engine() -> Engine {
    Engine { closed: None, runs: Vec::new(), lookups: Vec::new() }
}

#[test]
fn single_query_runs_and_echoes_its_id() {
    let mut e = engine();
    let step = handle_json_rpc_request(Parsed::Single(request(
        "query:files.list",
        object(vec![("a", Json::Bool(true))]),
        None,
        "id-1",
    )));
    let reply = drive(&mut e, step);
    assert_eq!(
        reply,
        Reply::Single(success("id-1", object(vec![("method", text("query:files.list"))])))
    );
    assert_eq!(
        e.runs,
        vec![("query:files.list".to_string(), None, object(vec![("a", Json::Bool(true))]), 30)]
    );
    assert!(e.lookups.is_empty());
}

#[test]
fn malformed_payload_gets_a_parse_error_with_empty_id() {
    let step = handle_json_rpc_request(Parsed::Malformed("expected value at line 1 column 1".to_string()));
    let expected = JsonRpcResponse {
        jsonrpc: "2.0".to_string(),
        id: String::new(),
        result: None,
        error: Some(JsonRpcError {
            code: -32700,
            message: "Parse error: expected value at line 1 column 1".to_string(),
            data: None,
        }),
    };
    match step {
        Step::Finished(reply) => assert_eq!(reply, Reply::Single(expected)),
        _ => panic!("a payload that cannot be read needs nothing of the engine"),
    }
    assert_eq!(
        parse_error_response("x"),
        JsonRpcResponse {
            jsonrpc: "2.0".to_string(),
            id: String::new(),
            result: None,
            error: Some(JsonRpcError { code: -32700, message: "Parse error: x".to_string(), data: None }),
        }
    );
}

#[test]
fn batch_keeps_order_and_ids() {
    let mut e = engine();
    let batch = vec![
        request("query:a", Json::Null, None, "first"),
        request("action:b", Json::Null, None, "second"),
        request("query:c", Json::Null, None, ""),
        request("query:d", Json::Null, None, "first"),
    ];
    let reply = drive(&mut e, handle_json_rpc_request(Parsed::Batch(batch)));
    assert_eq!(
        reply,
        Reply::Batch(vec![
            success("first", object(vec![("method", text("query:a"))])),
            success("second", object(vec![("method", text("action:b"))])),
            success("", object(vec![("method", text("query:c"))])),
            success("first", object(vec![("method", text("query:d"))])),
        ])
    );
    let ran: Vec<&str> = e.runs.iter().map(|r| r.0.as_str()).collect();
    assert_eq!(ran, vec!["query:a", "action:b", "query:c", "query:d"]);
}

#[test]
fn empty_batch_gives_an_empty_reply() {
    let mut e = engine();
    let reply = drive(&mut e, handle_json_rpc_request(Parsed::Batch(Vec::new())));
    assert_eq!(reply, Reply::Batch(Vec::new()));
    assert!(e.runs.is_empty());
}

#[test]
fn one_malformed_entry_fails_alone() {
    let mut e = engine();
    let batch = vec![
        request("query:a", Json::Null, None, "1"),
        request("bogus", Json::Null, None, "2"),
        request("action:c", Json::Null, None, "3"),
    ];
    let reply = drive(&mut e, handle_json_rpc_request(Parsed::Batch(batch)));
    assert_eq!(
        reply,
        Reply::Batch(vec![
            success("1", object(vec![("method", text("query:a"))])),
            failure(
                "2",
                -32601,
                "Invalid method prefix: bogus",
                "INVALID_METHOD",
                Some(object(vec![("reason", text("Invalid method prefix: bogus"))])),
            ),
            success("3", object(vec![("method", text("action:c"))])),
        ])
    );
    let ran: Vec<&str> = e.runs.iter().map(|r| r.0.as_str()).collect();
    assert_eq!(ran, vec!["query:a", "action:c"]);
}

#[test]
fn unknown_namespace_never_reaches_the_engine() {
    let mut e = engine();
    let reply = drive(
        &mut e,
        handle_json_rpc_request(Parsed::Single(request("files.list", Json::Null, Some(LIBRARY), "x"))),
    );
    assert_eq!(
        reply,
        Reply::Single(failure(
            "x",
            -32601,
            "Invalid method prefix: files.list",
            "INVALID_METHOD",
            Some(object(vec![("reason", text("Invalid method prefix: files.list"))])),
        ))
    );
    assert!(e.runs.is_empty());
    assert_eq!(e.lookups, vec![LIBRARY_NUMBER]);
}

#[test]
fn library_that_is_not_open_is_not_found() {
    let mut e = engine();
    e.closed = Some(LIBRARY_NUMBER);
    let reply = drive(
        &mut e,
        handle_json_rpc_request(Parsed::Single(request("query:files.list", Json::Null, Some(LIBRARY), "x"))),
    );
    assert_eq!(
        reply,
        Reply::Single(failure(
            "x",
            -32004,
            "Library not found or not open: 67e55044-10b1-426f-9247-bb680e5fe0c8",
            "LIBRARY_NOT_FOUND",
            Some(object(vec![("library_id", text(LIBRARY))])),
        ))
    );
    assert!(e.runs.is_empty());
    assert_eq!(e.lookups, vec![LIBRARY_NUMBER]);
}

#[test]
fn library_identifier_is_echoed_as_written() {
    let mut e = engine();
    e.closed = Some(LIBRARY_NUMBER);
    let written = "{67E55044-10B1-426F-9247-BB680E5FE0C8}";
    let reply = drive(
        &mut e,
        handle_json_rpc_request(Parsed::Single(request("query:q", Json::Null, Some(written), "x"))),
    );
    assert_eq!(
        reply,
        Reply::Single(failure(
            "x",
            -32004,
            "Library not found or not open: {67E55044-10B1-426F-9247-BB680E5FE0C8}",
            "LIBRARY_NOT_FOUND",
            Some(object(vec![("library_id", text(written))])),
        ))
    );
}

#[test]
fn unreadable_library_identifier_is_invalid_params() {
    let mut e = engine();
    let reply = drive(
        &mut e,
        handle_json_rpc_request(Parsed::Single(request("query:files.list", Json::Null, Some("xyz"), "x"))),
    );
    assert_eq!(
        reply,
        Reply::Single(failure(
            "x",
            -32602,
            "Invalid library ID format: invalid character: found `x` at 0",
            "INVALID_LIBRARY_ID",
            Some(object(vec![
                ("library_id", text("xyz")),
                ("reason", text("invalid character: found `x` at 0")),
            ])),
        ))
    );
    assert!(e.runs.is_empty());
    assert!(e.lookups.is_empty());
}

#[test]
fn open_library_is_handed_to_the_engine() {
    let mut e = engine();
    let reply = drive(
        &mut e,
        handle_json_rpc_request(Parsed::Single(request(
            "action:tags.create",
            object(vec![]),
            Some(LIBRARY),
            "x",
        ))),
    );
    assert_eq!(
        reply,
        Reply::Single(success("x", object(vec![("method", text("action:tags.create"))])))
    );
    assert_eq!(
        e.runs,
        vec![("action:tags.create".to_string(), Some(LIBRARY_NUMBER), Json::Null, 30)]
    );
}

#[test]
fn long_running_method_times_out_after_120() {
    let mut e = engine();
    let reply = drive(
        &mut e,
        handle_json_rpc_request(Parsed::Single(request(
            "action:locations.add.hang",
            Json::Null,
            None,
            "t",
        ))),
    );
    assert_eq!(
        reply,
        Reply::Single(failure(
            "t",
            -32000,
            "Request timeout after 120s: action:locations.add.hang",
            "TIMEOUT",
            Some(object(vec![
                ("method", text("action:locations.add.hang")),
                ("timeout_secs", Json::Number(JsonNumber::PosInt(120))),
            ])),
        ))
    );
    assert_eq!(e.runs[0].3, 120);
}

#[test]
fn other_method_times_out_after_30() {
    let mut e = engine();
    let reply = drive(
        &mut e,
        handle_json_rpc_request(Parsed::Single(request("query:search.hang", Json::Null, None, "t"))),
    );
    assert_eq!(
        reply,
        Reply::Single(failure(
            "t",
            -32000,
            "Request timeout after 30s: query:search.hang",
            "TIMEOUT",
            Some(object(vec![
                ("method", text("query:search.hang")),
                ("timeout_secs", Json::Number(JsonNumber::PosInt(30))),
            ])),
        ))
    );
    assert_eq!(e.runs[0].3, 30);
}

#[test]
fn failed_operation_is_reported_and_siblings_go_on() {
    let mut e = engine();
    e.closed = Some(7);
    let batch = vec![
        request("action:x.fail", Json::Null, None, "a"),
        request("query:y.hang", Json::Null, Some(LIBRARY), "b"),
        request("query:z", Json::Null, Some("00000000-0000-0000-0000-000000000007"), "c"),
        request("query:w", Json::Null, Some("?"), "d"),
        request("query:v", Json::Null, None, "e"),
    ];
    let reply = drive(&mut e, handle_json_rpc_request(Parsed::Batch(batch)));
    match reply {
        Reply::Batch(responses) => {
            assert_eq!(responses.len(), 5);
            let ids: Vec<&str> = responses.iter().map(|r| r.id.as_str()).collect();
            assert_eq!(ids, vec!["a", "b", "c", "d", "e"]);
            let codes: Vec<Option<i32>> =
                responses.iter().map(|r| r.error.as_ref().map(|e| e.code)).collect();
            assert_eq!(codes, vec![Some(-32007), Some(-32000), Some(-32004), Some(-32602), None]);
            for r in &responses {
                assert_eq!(r.jsonrpc, "2.0");
                assert!(r.result.is_some() != r.error.is_some());
            }
            assert_eq!(
                responses[0],
                failure(
                    "a",
                    -32007,
                    "Operation failed: it broke",
                    "OPERATION_FAILED",
                    Some(object(vec![("reason", text("it broke"))])),
                )
            );
        }
        Reply::Single(_) => panic!("a batch is answered with a batch"),
    }
    assert_eq!(e.lookups, vec![LIBRARY_NUMBER, 7]);
}

#[test]
fn stages_of_one_request() {
    match process_single_request(request("query:q", Json::Null, Some(LIBRARY), "i")) {
        Progress::AwaitLibrary { request: held, library } => {
            assert_eq!(library, LIBRARY_NUMBER);
            match library_checked(held, library, true) {
                Progress::AwaitExecution { call, ticket } => {
                    assert_eq!(
                        call,
                        DaemonRequest::Query {
                            method: "query:q".to_string(),
                            library_id: Some(LIBRARY_NUMBER),
                            payload: Json::Null,
                        }
                    );
                    assert_eq!(ticket.id, "i");
                    assert_eq!(ticket.method, "query:q");
                    assert_eq!(ticket.timeout_secs, 30);
                    let response = ticket.finish(Execution::Completed(DaemonResponse::Error(
                        DaemonError::CoreUnavailable("shutting down".to_string()),
                    )));
                    assert_eq!(
                        response,
                        failure(
                            "i",
                            -32008,
                            "Core unavailable: shutting down",
                            "CORE_UNAVAILABLE",
                            Some(object(vec![("reason", text("shutting down"))])),
                        )
                    );
                }
                _ => panic!("an open library lets the request run"),
            }
        }
        _ => panic!("a library identifier is looked up first"),
    }
}

#[test]
fn start_request_goes_by_the_reading_it_is_given() {
    match start_request(request("query:q", Json::Null, Some("anything"), "i"), Some(Ok(5))) {
        Progress::AwaitLibrary { library, .. } => assert_eq!(library, 5),
        _ => panic!("a reading that succeeded is looked up"),
    }
    match start_request(request("query:q", Json::Null, Some("anything"), "i"), Some(Err("why".to_string()))) {
        Progress::Done(response) => assert_eq!(
            response,
            failure(
                "i",
                -32602,
                "Invalid library ID format: why",
                "INVALID_LIBRARY_ID",
                Some(object(vec![("library_id", text("anything")), ("reason", text("why"))])),
            )
        ),
        _ => panic!("a reading that failed ends the request"),
    }
    match start_request(request("action:a", Json::Null, None, "i"), None) {
        Progress::AwaitExecution { ticket, .. } => assert_eq!(ticket.timeout_secs, 30),
        _ => panic!("a request without a library goes straight to its run"),
    }
}

#[test]
fn requests_that_are_no_operations_are_answered_without_a_run() {
    for request in [DaemonRequest::Ping, DaemonRequest::Shutdown] {
        assert_eq!(
            process_daemon_request(request),
            DaemonCall::Answer(DaemonResponse::Error(DaemonError::OperationFailed(
                "Unsupported request type".to_string()
            )))
        );
    }
    assert_eq!(
        process_daemon_request(DaemonRequest::Action {
            method: "action:a".to_string(),
            library_id: Some(1),
            payload: Json::Bool(true),
        }),
        DaemonCall::Run { method: "action:a".to_string(), library_id: Some(1), payload: Json::Bool(true) }
    );
    assert_eq!(daemon_response(Ok(Json::Null)), DaemonResponse::JsonOk(Json::Null));
    assert_eq!(
        daemon_response(Err("no".to_string())),
        DaemonResponse::Error(DaemonError::OperationFailed("no".to_string()))
    );
}
