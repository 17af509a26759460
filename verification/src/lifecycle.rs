//! The entry points' decisions: what initialization does and in which
//! order, what becomes of a message before it is run, and whether a listener
//! may start. The state they go by is a value of its own, made once and
//! handed to each of them.

use vstd::prelude::*;
use crate::boundary::{safe_cstring, without_nulls, Callback, TerminatedString};
use crate::text::join;
use crate::wire::{bare_failure, JsonRpcResponse, JsonRpcResponseView};

verus! {

/// Initialization succeeded, now or before.
pub const STATUS_OK: i32 = 0;

/// The runtime, the storage directory or the engine could not be made.
pub const STATUS_FAILED: i32 = -1;

/// A required argument was null.
pub const STATUS_NULL_ARGUMENT: i32 = -2;

/// What has been published for the life of the process: the runtime and the
/// engine. Initialization publishes both, once; nothing takes them back.
#[derive(Clone, Copy, Debug, PartialEq, Eq)]
pub struct CoreState {
    runtime: bool,
    core: bool,
}

/// The stages of initialization that can fail, in the order they are run.
#[derive(Clone, Copy, Debug, PartialEq, Eq)]
pub enum InitStage {
    Runtime,
    Directory,
    Core,
    Networking,
}

/// What initialization is to do next.
#[derive(Debug, PartialEq, Eq)]
pub enum InitStep {
    /// Hand this status back: nothing more is done.
    Return(i32),
    /// Start the runtime.
    StartRuntime { data_dir: String, device_name: Option<String> },
    /// Create the storage directory if it is absent.
    CreateDirectory,
    /// Construct the engine on the storage directory.
    ConstructCore,
    /// Try to bring networking up.
    InitNetworking,
    /// Publish the runtime and the engine, then hand back `STATUS_OK`.
    Publish,
}

pub enum InitStepView {
    Return(i32),
    StartRuntime { data_dir: Seq<char>, device_name: Option<Seq<char>> },
    CreateDirectory,
    ConstructCore,
    InitNetworking,
    Publish,
}

impl View for InitStep {
    type V = InitStepView;

    open spec fn view(&self) -> InitStepView {
        match self {
            InitStep::Return(status) => InitStepView::Return(*status),
            InitStep::StartRuntime { data_dir, device_name } => InitStepView::StartRuntime {
                data_dir: data_dir@,
                device_name: match device_name {
                    Some(name) => Some(name@),
                    None => None,
                },
            },
            InitStep::CreateDirectory => InitStepView::CreateDirectory,
            InitStep::ConstructCore => InitStepView::ConstructCore,
            InitStep::InitNetworking => InitStepView::InitNetworking,
            InitStep::Publish => InitStepView::Publish,
        }
    }
}

/// A device name that is absent or empty is no device name.
pub open spec fn device_name_of(name: Option<Seq<char>>) -> Option<Seq<char>> {
    match name {
        Some(name) => if name.len() == 0 {
            None
        } else {
            Some(name)
        },
        None => None,
    }
}

/// How initialization begins. A null storage directory is refused; once
/// the runtime and the engine are published, initialization is a no-op that
/// succeeds; otherwise the runtime is started first.
pub open spec fn init_begin(
    state: CoreState,
    data_dir: Option<Seq<char>>,
    device_name: Option<Seq<char>>,
) -> InitStepView {
    match data_dir {
        None => InitStepView::Return(STATUS_NULL_ARGUMENT),
        Some(dir) => if state.is_initialized() {
            InitStepView::Return(STATUS_OK)
        } else {
            InitStepView::StartRuntime { data_dir: dir, device_name: device_name_of(device_name) }
        },
    }
}

/// What follows a stage. The runtime, the directory and the engine are each
/// needed: when one fails, initialization fails. Networking is not: whether
/// it came up or not, the runtime and the engine are published.
pub open spec fn init_after(stage: InitStage, succeeded: bool) -> InitStepView {
    match stage {
        InitStage::Runtime => if succeeded {
            InitStepView::CreateDirectory
        } else {
            InitStepView::Return(STATUS_FAILED)
        },
        InitStage::Directory => if succeeded {
            InitStepView::ConstructCore
        } else {
            InitStepView::Return(STATUS_FAILED)
        },
        InitStage::Core => if succeeded {
            InitStepView::InitNetworking
        } else {
            InitStepView::Return(STATUS_FAILED)
        },
        InitStage::Networking => InitStepView::Publish,
    }
}

impl CoreState {
    /// Whether the runtime is published.
    pub closed spec fn has_runtime(&self) -> bool {
        self.runtime
    }

    /// Whether the engine is published.
    pub closed spec fn has_core(&self) -> bool {
        self.core
    }

    /// Whether initialization has succeeded.
    pub open spec fn is_initialized(&self) -> bool {
        self.has_runtime() && self.has_core()
    }

    /// The state of a process that has published nothing.
    pub fn new() -> (state: CoreState)
        ensures
            !state.has_runtime(),
            !state.has_core(),
    {
        CoreState { runtime: false, core: false }
    }

    /// The state of a process in which the runtime and the engine were
    /// looked for and found, or not.
    pub fn observed(runtime: bool, core: bool) -> (state: CoreState)
        ensures
            state.has_runtime() == runtime,
            state.has_core() == core,
    {
        CoreState { runtime, core }
    }

    /// Whether initialization has succeeded.
    pub fn initialized(&self) -> (done: bool)
        ensures
            done == self.is_initialized(),
    {
        self.runtime && self.core
    }

    /// Records that the runtime and the engine are published, and gives the
    /// status that initialization hands back.
    pub fn publish(&mut self) -> (status: i32)
        ensures
            final(self).is_initialized(),
            status == STATUS_OK,
    {
        self.runtime = true;
        self.core = true;
        STATUS_OK
    }
}

/// Begins initialization: what is to be done first, for the arguments the
/// host gave. `None` stands for a null pointer.
pub fn initialize_core(state: &CoreState, data_dir: Option<String>, device_name: Option<String>) -> (step:
    InitStep)
    ensures
        step@ == init_begin(
            *state,
            match data_dir {
                Some(dir) => Some(dir@),
                None => None,
            },
            match device_name {
                Some(name) => Some(name@),
                None => None,
            },
        ),
{
    match data_dir {
        None => InitStep::Return(STATUS_NULL_ARGUMENT),
        Some(dir) => {
            if state.initialized() {
                InitStep::Return(STATUS_OK)
            } else {
                let device_name = match device_name {
                    Some(name) => {
                        if name.as_str().is_empty() {
                            None
                        } else {
                            Some(name)
                        }
                    },
                    None => None,
                };
                InitStep::StartRuntime { data_dir: dir, device_name }
            }
        },
    }
}

/// What initialization does after a stage has succeeded or failed.
pub fn initialize_next(stage: InitStage, succeeded: bool) -> (step: InitStep)
    ensures
        step@ == init_after(stage, succeeded),
        !(step is StartRuntime),
{
    match stage {
        InitStage::Runtime => if succeeded {
            InitStep::CreateDirectory
        } else {
            InitStep::Return(STATUS_FAILED)
        },
        InitStage::Directory => if succeeded {
            InitStep::ConstructCore
        } else {
            InitStep::Return(STATUS_FAILED)
        },
        InitStage::Core => if succeeded {
            InitStep::InitNetworking
        } else {
            InitStep::Return(STATUS_FAILED)
        },
        InitStage::Networking => InitStep::Publish,
    }
}

/// Initialization is idempotent: once it has succeeded, to begin it again
/// with any storage directory hands back success and starts nothing.
pub proof fn lemma_initialize_twice(
    state: CoreState,
    data_dir: Seq<char>,
    device_name: Option<Seq<char>>,
)
    requires
        state.is_initialized(),
    ensures
        init_begin(state, Some(data_dir), device_name) == InitStepView::Return(STATUS_OK),
{
}

/// Initialization succeeds whether networking comes up or not, and only
/// after the runtime, the directory and the engine were made, in that order.
pub proof fn lemma_networking_is_best_effort(up: bool)
    ensures
        init_after(InitStage::Runtime, true) == InitStepView::CreateDirectory,
        init_after(InitStage::Directory, true) == InitStepView::ConstructCore,
        init_after(InitStage::Core, true) == InitStepView::InitNetworking,
        init_after(InitStage::Networking, up) == InitStepView::Publish,
{
}

/// What becomes of a message before it is run.
#[derive(Debug, PartialEq)]
pub enum Dispatch {
    /// The callback cannot be called: nothing can be delivered.
    Ignore,
    /// Call the callback with this response, now.
    Reply(JsonRpcResponse),
    /// Run the query, then call the callback with its reply.
    Run(String),
}

pub enum DispatchView {
    Ignore,
    Reply(JsonRpcResponseView),
    Run(Seq<char>),
}

impl View for Dispatch {
    type V = DispatchView;

    open spec fn view(&self) -> DispatchView {
        match self {
            Dispatch::Ignore => DispatchView::Ignore,
            Dispatch::Reply(response) => DispatchView::Reply(response@),
            Dispatch::Run(query) => DispatchView::Run(query@),
        }
    }
}

/// A callback that cannot be called gets nothing. Any other callback gets
/// exactly one reply: at once when the query is null or when the runtime or
/// the engine is not published, in this order; after the run otherwise.
pub open spec fn dispatch_of(
    state: CoreState,
    query: Option<Seq<char>>,
    callback: Callback,
) -> DispatchView {
    if !callback.callable() {
        DispatchView::Ignore
    } else {
        match query {
            None => DispatchView::Reply(
                bare_failure(Seq::empty(), -32600, "Query pointer is null"@),
            ),
            Some(text) => if !state.has_runtime() {
                DispatchView::Reply(bare_failure(Seq::empty(), -32603, "Runtime not initialized"@))
            } else if !state.has_core() {
                DispatchView::Reply(bare_failure(Seq::empty(), -32603, "Core not initialized"@))
            } else {
                DispatchView::Run(text)
            },
        }
    }
}

/// Decides what becomes of a message. `None` stands for a null query.
pub fn handle_core_msg(state: &CoreState, query: Option<String>, callback: Callback) -> (dispatch:
    Dispatch)
    ensures
        dispatch@ == dispatch_of(
            *state,
            match query {
                Some(text) => Some(text@),
                None => None,
            },
            callback,
        ),
        dispatch matches Dispatch::Reply(response) ==> response@.well_formed(),
{
    proof {
        reveal_strlit("");
        assert(""@ =~= Seq::<char>::empty());
    }
    if !callback.is_callable() {
        return Dispatch::Ignore;
    }
    match query {
        None => Dispatch::Reply(
            JsonRpcResponse::bare_failure(
                "".to_string(),
                -32600,
                "Query pointer is null".to_string(),
            ),
        ),
        Some(text) => {
            if !state.runtime {
                Dispatch::Reply(
                    JsonRpcResponse::bare_failure(
                        "".to_string(),
                        -32603,
                        "Runtime not initialized".to_string(),
                    ),
                )
            } else if !state.core {
                Dispatch::Reply(
                    JsonRpcResponse::bare_failure(
                        "".to_string(),
                        -32603,
                        "Core not initialized".to_string(),
                    ),
                )
            } else {
                Dispatch::Run(text)
            }
        },
    }
}

/// The response that stands in for a reply that could not be turned into a
/// document.
pub open spec fn serialization_failure(batch: bool, reason: Seq<char>) -> JsonRpcResponseView {
    bare_failure(
        Seq::empty(),
        -32603,
        if batch {
            "Failed to serialize batch response: "@ + reason
        } else {
            "Failed to serialize response: "@ + reason
        },
    )
}

/// Builds the response that stands in for a reply that could not be turned
/// into a document.
pub fn serialization_failure_response(batch: bool, reason: &str) -> (r: JsonRpcResponse)
    ensures
        r@ == serialization_failure(batch, reason@),
        r@.well_formed(),
{
    proof {
        reveal_strlit("");
        assert(""@ =~= Seq::<char>::empty());
    }
    let message = if batch {
        join("Failed to serialize batch response: ", reason)
    } else {
        join("Failed to serialize response: ", reason)
    };
    JsonRpcResponse::bare_failure("".to_string(), -32603, message)
}

/// The text that is delivered when a reply could not be written out: a
/// fixed envelope that reports an internal error.
pub open spec fn fallback_text() -> Seq<char> {
    r#"{"jsonrpc":"2.0","id":"","error":{"code":-32603,"message":"Response serialization failed"}}"#@
}

/// What is delivered for the outcome of writing a reply out: the text,
/// sanitized, or the fixed envelope in its place.
pub open spec fn delivered_text(written: Option<Seq<char>>) -> Seq<char> {
    match written {
        Some(text) => without_nulls(text),
        None => without_nulls(fallback_text()),
    }
}

/// Makes the text that is handed to the callback, from the outcome of
/// writing the reply out. There is always a text to hand over.
pub fn response_text(written: Result<String, String>) -> (text: TerminatedString)
    ensures
        text@ == delivered_text(
            match written {
                Ok(t) => Some(t@),
                Err(_) => None,
            },
        ),
{
    match written {
        Ok(t) => safe_cstring(t.as_str()),
        Err(_) => safe_cstring(
            r#"{"jsonrpc":"2.0","id":"","error":{"code":-32603,"message":"Response serialization failed"}}"#,
        ),
    }
}

/// A listener may start when the engine and the runtime are published and
/// its callback can be called.
pub open spec fn listener_may_start(state: CoreState, callback: Callback) -> bool {
    state.has_core() && state.has_runtime() && callback.callable()
}

/// Whether a listener on the engine's events is to be started. When it is
/// not, the registration is a no-op.
pub fn spawn_core_event_listener(state: &CoreState, callback: Callback) -> (start: bool)
    ensures
        start == listener_may_start(*state, callback),
{
    state.core && state.runtime && callback.is_callable()
}

/// Whether a listener on the engine's logs is to be started. When it is
/// not, the registration is a no-op.
pub fn spawn_core_log_listener(state: &CoreState, callback: Callback) -> (start: bool)
    ensures
        start == listener_may_start(*state, callback),
{
    state.core && state.runtime && callback.is_callable()
}

} // verus!
