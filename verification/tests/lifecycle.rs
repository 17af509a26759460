use sd_mobile_core::boundary::Callback;
use sd_mobile_core::lifecycle::{
    handle_core_msg, initialize_core, initialize_next, response_text,
    serialization_failure_response, spawn_core_event_listener, spawn_core_log_listener, CoreState,
    Dispatch, InitStage, InitStep, STATUS_FAILED, STATUS_NULL_ARGUMENT, STATUS_OK,
};
use sd_mobile_core::wire::{JsonRpcError, JsonRpcResponse};

const CALLBACK: Callback = Callback { function: 4096, data: 0 };
const NULL_CALLBACK: Callback = Callback { function: 0, data: 4096 };

fn bare(code: i32, message: &str) -> JsonRpcResponse {
    JsonRpcResponse {
        jsonrpc: "2.0".to_string(),
        id: String::new(),
        result: None,
        error: Some(JsonRpcError { code, message: message.to_string(), data: None }),
    }
}

/// Runs initialization to its end. `fails` is the stage that fails, if any;
/// `made` counts how often each thing was made.
fn run_init(
    state: &mut CoreState,
    data_dir: Option<&str>,
    device_name: Option<&str>,
    fails: Option<InitStage>,
    made: &mut Vec<&'static str>,
) -> i32 {
    let mut step = initialize_core(
        state,
        data_dir.map(|s| s.to_string()),
        device_name.map(|s| s.to_string()),
    );
    loop {
        let stage = match step {
            InitStep::Return(status) => return status,
            InitStep::Publish => return state.publish(),
            InitStep::StartRuntime { .. } => {
                made.push("runtime");
                InitStage::Runtime
            }
            InitStep::CreateDirectory => {
                made.push("directory");
                InitStage::Directory
            }
            InitStep::ConstructCore => {
                made.push("core");
                InitStage::Core
            }
            InitStep::InitNetworking => {
                made.push("networking");
                InitStage::Networking
            }
        };
        step = initialize_next(stage, fails != Some(stage));
    }
}

#[test]
fn status_codes_are_fixed() {
    assert_eq!(STATUS_OK, 0);
    assert_eq!(STATUS_FAILED, -1);
    assert_eq!(STATUS_NULL_ARGUMENT, -2);
}

#[test]
fn initialize_runs_the_stages_in_order() {
    let mut state = CoreState::new();
    let mut made = Vec::new();
    assert!(!state.initialized());
    assert_eq!(run_init(&mut state, Some("/data"), Some("Pixel"), None, &mut made), 0);
    assert_eq!(made, vec!["runtime", "directory", "core", "networking"]);
    assert!(state.initialized());
}

#[test]
fn initialize_twice_returns_zero_without_recreating_the_runtime() {
    let mut state = CoreState::new();
    let mut made = Vec::new();
    assert_eq!(run_init(&mut state, Some("/data"), Some("Pixel"), None, &mut made), 0);
    let runtimes = made.iter().filter(|m| **m == "runtime").count();
    assert_eq!(runtimes, 1);
    assert_eq!(run_init(&mut state, Some("/data"), Some("Pixel"), None, &mut made), 0);
    assert_eq!(made, vec!["runtime", "directory", "core", "networking"]);
    assert_eq!(
        initialize_core(&state, Some("/elsewhere".to_string()), None),
        InitStep::Return(0)
    );
    assert!(state.initialized());
}

#[test]
fn null_data_dir_is_refused_even_after_success() {
    let mut state = CoreState::new();
    let mut made = Vec::new();
    assert_eq!(run_init(&mut state, None, Some("Pixel"), None, &mut made), -2);
    assert!(made.is_empty());
    assert!(!state.initialized());
    assert_eq!(run_init(&mut state, Some("/data"), None, None, &mut made), 0);
    assert_eq!(initialize_core(&state, None, None), InitStep::Return(-2));
}

#[test]
fn empty_device_name_is_no_device_name() {
    let state = CoreState::new();
    assert_eq!(
        initialize_core(&state, Some("/data".to_string()), Some(String::new())),
        InitStep::StartRuntime { data_dir: "/data".to_string(), device_name: None }
    );
    assert_eq!(
        initialize_core(&state, Some("/data".to_string()), None),
        InitStep::StartRuntime { data_dir: "/data".to_string(), device_name: None }
    );
    assert_eq!(
        initialize_core(&state, Some("/data".to_string()), Some("Pixel 8a".to_string())),
        InitStep::StartRuntime {
            data_dir: "/data".to_string(),
            device_name: Some("Pixel 8a".to_string())
        }
    );
}

#[test]
fn a_needed_stage_that_fails_fails_initialization() {
    for (stage, expected) in [
        (InitStage::Runtime, vec!["runtime"]),
        (InitStage::Directory, vec!["runtime", "directory"]),
        (InitStage::Core, vec!["runtime", "directory", "core"]),
    ] {
        let mut state = CoreState::new();
        let mut made = Vec::new();
        assert_eq!(run_init(&mut state, Some("/data"), None, Some(stage), &mut made), -1);
        assert_eq!(made, expected);
        assert!(!state.initialized());
        made.clear();
        assert_eq!(run_init(&mut state, Some("/data"), None, None, &mut made), 0);
        assert_eq!(made, vec!["runtime", "directory", "core", "networking"]);
    }
}

#[test]
fn networking_failure_is_not_fatal() {
    let mut state = CoreState::new();
    let mut made = Vec::new();
    assert_eq!(
        run_init(&mut state, Some("/data"), None, Some(InitStage::Networking), &mut made),
        0
    );
    assert!(state.initialized());
    assert_eq!(initialize_next(InitStage::Networking, false), InitStep::Publish);
    assert_eq!(initialize_next(InitStage::Networking, true), InitStep::Publish);
}

#[test]
fn message_before_initialization_is_answered_at_once() {
    let state = CoreState::new();
    assert_eq!(
        handle_core_msg(&state, Some("{}".to_string()), CALLBACK),
        Dispatch::Reply(bare(-32603, "Runtime not initialized"))
    );
    assert_eq!(
        handle_core_msg(&state, None, CALLBACK),
        Dispatch::Reply(bare(-32600, "Query pointer is null"))
    );
}

#[test]
fn message_after_initialization_is_run() {
    let mut state = CoreState::new();
    state.publish();
    assert_eq!(
        handle_core_msg(&state, Some("[1]".to_string()), CALLBACK),
        Dispatch::Run("[1]".to_string())
    );
    assert_eq!(
        handle_core_msg(&state, None, CALLBACK),
        Dispatch::Reply(bare(-32600, "Query pointer is null"))
    );
}

#[test]
fn null_callback_gets_nothing() {
    let mut state = CoreState::new();
    assert_eq!(handle_core_msg(&state, Some("{}".to_string()), NULL_CALLBACK), Dispatch::Ignore);
    assert_eq!(handle_core_msg(&state, None, NULL_CALLBACK), Dispatch::Ignore);
    state.publish();
    assert_eq!(handle_core_msg(&state, Some("{}".to_string()), NULL_CALLBACK), Dispatch::Ignore);
}

#[test]
fn reply_that_cannot_be_written_out_is_replaced() {
    assert_eq!(
        response_text(Err("recursion limit".to_string())).to_str(),
        "{\"jsonrpc\":\"2.0\",\"id\":\"\",\"error\":{\"code\":-32603,\"message\":\"Response serialization failed\"}}"
    );
    assert_eq!(response_text(Ok("{\"a\":\"b\0c\"}".to_string())).to_str(), "{\"a\":\"bc\"}");
    assert_eq!(response_text(Ok(String::new())).to_str(), "");
    assert_eq!(
        serialization_failure_response(true, "why"),
        bare(-32603, "Failed to serialize batch response: why")
    );
    assert_eq!(
        serialization_failure_response(false, "why"),
        bare(-32603, "Failed to serialize response: why")
    );
}

#[test]
fn listeners_start_only_when_everything_is_there() {
    let mut state = CoreState::new();
    assert!(!spawn_core_event_listener(&state, CALLBACK));
    assert!(!spawn_core_log_listener(&state, CALLBACK));
    state.publish();
    assert!(spawn_core_event_listener(&state, CALLBACK));
    assert!(spawn_core_log_listener(&state, CALLBACK));
    assert!(!spawn_core_event_listener(&state, NULL_CALLBACK));
    assert!(!spawn_core_log_listener(&state, NULL_CALLBACK));
}
