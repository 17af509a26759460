//! One payload from the host, a single request or a batch, driven to the
//! one reply that answers it. The entries of a batch run one after the other,
//! each through every stage, and the reply holds their responses in the
//! order of the requests.

use vstd::prelude::*;
use crate::daemon::{DaemonRequest, DaemonRequestView};
use crate::executor::{
    finished, library_checked, process_single_request, resumed, started, Execution, ExecutionView,
    Progress, ProgressView, Ticket, TicketView,
};
use crate::daemon::DaemonResponseView;
use crate::json::JsonView;
use crate::text::join;
use crate::timeout::{is_long_running, timeout_secs};
use crate::translate::{
    invalid_library_id, invalid_method, library_not_found, scope_of, timed_out,
};
use crate::wire::{
    bare_failure, success, JsonRpcRequest, JsonRpcRequestView, JsonRpcResponse,
    JsonRpcResponseView,
};

verus! {

/// What reading the payload gave: a batch, a single request, or nothing that
/// can be read, with the words of the reader.
#[derive(Debug, PartialEq)]
pub enum Parsed {
    Batch(Vec<JsonRpcRequest>),
    Single(JsonRpcRequest),
    Malformed(String),
}

/// What goes back to the host: the responses of a batch in the order of its
/// requests, or the one response of a single request.
#[derive(Debug, PartialEq)]
pub enum Reply {
    Batch(Vec<JsonRpcResponse>),
    Single(JsonRpcResponse),
}

pub enum ParsedView {
    Batch(Seq<JsonRpcRequestView>),
    Single(JsonRpcRequestView),
    Malformed(Seq<char>),
}

pub enum ReplyView {
    Batch(Seq<JsonRpcResponseView>),
    Single(JsonRpcResponseView),
}

/// The views of requests, in order.
pub open spec fn requests_view(requests: Seq<JsonRpcRequest>) -> Seq<JsonRpcRequestView> {
    requests.map_values(|r: JsonRpcRequest| r@)
}

/// The views of responses, in order.
pub open spec fn responses_view(responses: Seq<JsonRpcResponse>) -> Seq<JsonRpcResponseView> {
    responses.map_values(|r: JsonRpcResponse| r@)
}

impl View for Parsed {
    type V = ParsedView;

    open spec fn view(&self) -> ParsedView {
        match self {
            Parsed::Batch(requests) => ParsedView::Batch(requests_view(requests@)),
            Parsed::Single(request) => ParsedView::Single(request@),
            Parsed::Malformed(reason) => ParsedView::Malformed(reason@),
        }
    }
}

impl View for Reply {
    type V = ReplyView;

    open spec fn view(&self) -> ReplyView {
        match self {
            Reply::Batch(responses) => ReplyView::Batch(responses_view(responses@)),
            Reply::Single(response) => ReplyView::Single(response@),
        }
    }
}

/// What the engine answered for one request: whether its library is open,
/// and how its run ended. A request that was settled before a question was
/// asked does not depend on the answer to it.
pub struct Answer {
    pub library_open: bool,
    pub execution: ExecutionView,
}

/// The response that a request ends in, given what the engine answers.
pub open spec fn response_of(request: JsonRpcRequestView, answer: Answer) -> JsonRpcResponseView {
    match started(request, scope_of(request.params.library_id)) {
        ProgressView::Done(response) => response,
        ProgressView::AwaitExecution { call: _, ticket } => finished(ticket, answer.execution),
        ProgressView::AwaitLibrary { request: held, library } => match resumed(
            held,
            library,
            answer.library_open,
        ) {
            ProgressView::Done(response) => response,
            ProgressView::AwaitExecution { call: _, ticket } => finished(
                ticket,
                answer.execution,
            ),
            ProgressView::AwaitLibrary { .. } => arbitrary(),
        },
    }
}

/// `response` is what `request` ends in for some answers of the engine.
pub open spec fn answers_to(request: JsonRpcRequestView, response: JsonRpcResponseView) -> bool {
    exists|answer: Answer| response == #[trigger] response_of(request, answer)
}

/// One response for each request, in the order of the requests, each what
/// its own request ends in whatever became of the others.
pub open spec fn echoed(
    requests: Seq<JsonRpcRequestView>,
    responses: Seq<JsonRpcResponseView>,
) -> bool {
    &&& responses.len() == requests.len()
    &&& forall|i: int|
        0 <= i < responses.len() ==> answers_to(requests[i], #[trigger] responses[i])
}

/// The response to a payload that cannot be read. No request can be told
/// in it, so its id is empty.
pub open spec fn parse_error(reason: Seq<char>) -> JsonRpcResponseView {
    bare_failure(Seq::empty(), -32700, "Parse error: "@ + reason)
}

/// The requests that a payload holds.
pub open spec fn requests_of(parsed: ParsedView) -> Seq<JsonRpcRequestView> {
    match parsed {
        ParsedView::Batch(requests) => requests,
        ParsedView::Single(request) => seq![request],
        ParsedView::Malformed(_) => Seq::empty(),
    }
}

/// Where an exchange stands, as a mathematical value.
pub enum Flow {
    /// The engine is to say whether `library` is open, for the request that
    /// follows the settled ones.
    LookupLibrary { settled: Seq<JsonRpcResponseView>, library: u128 },
    /// The engine is to run `request`, for the request that follows the
    /// settled ones.
    Execute { settled: Seq<JsonRpcResponseView>, request: DaemonRequestView, ticket: TicketView },
    /// The reply is ready.
    Finished { reply: ReplyView },
}

/// The reply made of the responses.
pub open spec fn reply_of(batch: bool, responses: Seq<JsonRpcResponseView>) -> ReplyView {
    if batch {
        ReplyView::Batch(responses)
    } else {
        ReplyView::Single(responses[0])
    }
}

/// Where an exchange goes from the responses settled so far: it settles
/// every request that needs nothing of the engine, and stops at the first
/// one that does, or at the end.
pub open spec fn flow_from(
    batch: bool,
    requests: Seq<JsonRpcRequestView>,
    settled: Seq<JsonRpcResponseView>,
) -> Flow
    decreases requests.len() - settled.len(),
{
    if settled.len() >= requests.len() {
        Flow::Finished { reply: reply_of(batch, settled) }
    } else {
        let request = requests[settled.len() as int];
        match started(request, scope_of(request.params.library_id)) {
            ProgressView::Done(response) => flow_from(batch, requests, settled.push(response)),
            ProgressView::AwaitLibrary { request: _, library } => Flow::LookupLibrary {
                settled,
                library,
            },
            ProgressView::AwaitExecution { call: daemon_request, ticket } => Flow::Execute {
                settled,
                request: daemon_request,
                ticket,
            },
        }
    }
}

/// Where an exchange goes once the request that follows the settled ones
/// has come to `progress`.
pub open spec fn flow_after(
    batch: bool,
    requests: Seq<JsonRpcRequestView>,
    settled: Seq<JsonRpcResponseView>,
    progress: ProgressView,
) -> Flow {
    match progress {
        ProgressView::Done(response) => flow_from(batch, requests, settled.push(response)),
        ProgressView::AwaitLibrary { request: _, library } => Flow::LookupLibrary {
            settled,
            library,
        },
        ProgressView::AwaitExecution { call: daemon_request, ticket } => Flow::Execute {
            settled,
            request: daemon_request,
            ticket,
        },
    }
}

struct Exchange {
    batch: bool,
    queue: Vec<JsonRpcRequest>,
    responses: Vec<JsonRpcResponse>,
    requests: Ghost<Seq<JsonRpcRequestView>>,
}

impl Exchange {
    /// The responses answer the first requests, the queue holds the last
    /// ones, and `held` requests stand between them.
    spec fn aligned(&self, held: nat) -> bool {
        let settled = self.responses@.len();
        &&& settled + held + self.queue@.len() == self.requests@.len()
        &&& forall|j: int|
            0 <= j < self.queue@.len() ==> (#[trigger] self.queue@[j])@ == self.requests@[settled
                + held + j]
        &&& forall|i: int|
            0 <= i < settled ==> answers_to(self.requests@[i], (#[trigger] self.responses@[i])@)
        &&& forall|i: int| 0 <= i < settled ==> (#[trigger] self.responses@[i])@.well_formed()
        &&& !self.batch ==> self.requests@.len() == 1
    }
}

/// An exchange that waits for the engine to say whether a library is open.
pub struct PendingLibrary {
    exchange: Exchange,
    request: JsonRpcRequest,
    library: u128,
}

/// An exchange that waits for the engine to run a request.
pub struct PendingExecution {
    exchange: Exchange,
    ticket: Ticket,
}

impl PendingLibrary {
    #[verifier::type_invariant]
    spec fn inv(&self) -> bool {
        &&& self.exchange.aligned(1)
        &&& self.request@ == self.exchange.requests@[self.exchange.responses@.len() as int]
        &&& scope_of(self.request@.params.library_id) == Some(
            Ok::<u128, Seq<char>>(self.library),
        )
    }

    /// Whether the payload was a batch.
    pub closed spec fn batch(&self) -> bool {
        self.exchange.batch
    }

    /// The requests of the payload, in order.
    pub closed spec fn requests(&self) -> Seq<JsonRpcRequestView> {
        self.exchange.requests@
    }

    /// The responses settled so far: those of the first requests.
    pub closed spec fn settled(&self) -> Seq<JsonRpcResponseView> {
        responses_view(self.exchange.responses@)
    }

    /// The request that waits.
    pub closed spec fn request(&self) -> JsonRpcRequestView {
        self.request@
    }

    /// The library in question.
    pub closed spec fn spec_library(&self) -> u128 {
        self.library
    }

    /// The library in question.
    pub fn library(&self) -> (library: u128)
        ensures
            library == self.spec_library(),
    {
        self.library
    }

    /// The request that waits is the one that follows the settled ones, its
    /// library identifier reads as the library in question, and the settled
    /// responses answer the requests before it.
    pub open spec fn positioned(&self) -> bool {
        &&& self.settled().len() < self.requests().len()
        &&& self.request() == self.requests()[self.settled().len() as int]
        &&& scope_of(self.request().params.library_id) == Some(
            Ok::<u128, Seq<char>>(self.spec_library()),
        )
        &&& echoed(self.requests().take(self.settled().len() as int), self.settled())
    }

    /// Goes on once the engine has said whether the library is open.
    pub fn library_checked(self, open: bool) -> (step: Step)
        ensures
            step.flow() == flow_after(
                self.batch(),
                self.requests(),
                self.settled(),
                resumed(self.request(), self.spec_library(), open),
            ),
            step.sound(),
            step.batch() == self.batch(),
            !(step is Finished) ==> step.requests() == self.requests(),
            step matches Step::Finished(reply) ==> replied(self.batch(), self.requests(), reply@),
    {
        proof {
            use_type_invariant(&self);
        }
        let PendingLibrary { exchange, request, library } = self;
        let ghost held = request@;
        let progress = library_checked(request, library, open);
        proof {
            lemma_resumed_answers(held, library, open);
        }
        exchange.proceed(progress, Ghost(Answer { library_open: open, execution: ExecutionView::TimedOut }))
    }
}

impl PendingExecution {
    #[verifier::type_invariant]
    spec fn inv(&self) -> bool {
        &&& self.exchange.aligned(1)
        &&& forall|execution: ExecutionView| #[trigger]
            finished(self.ticket@, execution) == response_of(
                self.exchange.requests@[self.exchange.responses@.len() as int],
                Answer { library_open: true, execution },
            )
    }

    /// Whether the payload was a batch.
    pub closed spec fn batch(&self) -> bool {
        self.exchange.batch
    }

    /// The requests of the payload, in order.
    pub closed spec fn requests(&self) -> Seq<JsonRpcRequestView> {
        self.exchange.requests@
    }

    /// The responses settled so far: those of the first requests.
    pub closed spec fn settled(&self) -> Seq<JsonRpcResponseView> {
        responses_view(self.exchange.responses@)
    }

    /// What is kept of the request that runs.
    pub closed spec fn ticket(&self) -> TicketView {
        self.ticket@
    }

    /// The budget of the run, in seconds.
    pub fn timeout_secs(&self) -> (secs: u64)
        ensures
            secs == self.ticket().timeout_secs,
    {
        self.ticket.timeout_secs
    }

    /// The method that runs.
    pub fn method(&self) -> (method: &str)
        ensures
            method@ == self.ticket().method,
    {
        self.ticket.method.as_str()
    }

    /// The request that runs is the one that follows the settled ones;
    /// however its run ends, its response is the one the ticket gives; and
    /// the settled responses answer the requests before it.
    pub open spec fn positioned(&self) -> bool {
        &&& self.settled().len() < self.requests().len()
        &&& forall|execution: ExecutionView| #[trigger]
            finished(self.ticket(), execution) == response_of(
                self.requests()[self.settled().len() as int],
                Answer { library_open: true, execution },
            )
        &&& echoed(self.requests().take(self.settled().len() as int), self.settled())
    }

    /// Goes on once the run has ended, in time or not.
    pub fn executed(self, execution: Execution) -> (step: Step)
        ensures
            step.flow() == flow_from(
                self.batch(),
                self.requests(),
                self.settled().push(finished(self.ticket(), execution@)),
            ),
            step.sound(),
            step.batch() == self.batch(),
            !(step is Finished) ==> step.requests() == self.requests(),
            step matches Step::Finished(reply) ==> replied(self.batch(), self.requests(), reply@),
    {
        proof {
            use_type_invariant(&self);
        }
        let PendingExecution { exchange, ticket } = self;
        let ghost answer = Answer { library_open: true, execution: execution@ };
        let response = ticket.finish(execution);
        exchange.proceed(Progress::Done(response), Ghost(answer))
    }
}

/// What is to be done next for an exchange.
pub enum Step {
    /// Ask the engine whether the library is open, then call
    /// `library_checked`.
    LookupLibrary(PendingLibrary),
    /// Run the request under the budget of `pending`, then call `executed`.
    Execute { request: DaemonRequest, pending: PendingExecution },
    /// Hand the reply to the host: the exchange is over.
    Finished(Reply),
}

/// The reply answers the payload: made of one response for each request, in
/// order, as one response where the payload was a single request.
pub open spec fn replied(batch: bool, requests: Seq<JsonRpcRequestView>, reply: ReplyView) -> bool {
    match reply {
        ReplyView::Batch(responses) => batch && echoed(requests, responses) && forall|i: int|
            0 <= i < responses.len() ==> (#[trigger] responses[i]).well_formed(),
        ReplyView::Single(response) => !batch && requests.len() == 1 && answers_to(
            requests[0],
            response,
        ) && response.well_formed(),
    }
}

impl Step {
    /// Where the exchange stands.
    pub open spec fn flow(&self) -> Flow {
        match self {
            Step::LookupLibrary(pending) => Flow::LookupLibrary {
                settled: pending.settled(),
                library: pending.spec_library(),
            },
            Step::Execute { request, pending } => Flow::Execute {
                settled: pending.settled(),
                request: request@,
                ticket: pending.ticket(),
            },
            Step::Finished(reply) => Flow::Finished { reply: reply@ },
        }
    }

    /// What waits is in its place, whatever waits.
    pub open spec fn sound(&self) -> bool {
        match self {
            Step::LookupLibrary(pending) => pending.positioned(),
            Step::Execute { request: _, pending } => pending.positioned(),
            Step::Finished(_) => true,
        }
    }

    /// Whether the payload was a batch.
    pub open spec fn batch(&self) -> bool {
        match self {
            Step::LookupLibrary(pending) => pending.batch(),
            Step::Execute { request: _, pending } => pending.batch(),
            Step::Finished(reply) => reply is Batch,
        }
    }

    /// The requests of the payload, while the exchange goes on.
    pub open spec fn requests(&self) -> Seq<JsonRpcRequestView> {
        match self {
            Step::LookupLibrary(pending) => pending.requests(),
            Step::Execute { request: _, pending } => pending.requests(),
            Step::Finished(_) => arbitrary(),
        }
    }
}

/// What a request comes to at its first stage answers to it, when that
/// stage settles it.
proof fn lemma_started_answers(request: JsonRpcRequestView, answer: Answer)
    ensures
        started(request, scope_of(request.params.library_id)) matches ProgressView::Done(response)
            ==> response == response_of(request, answer),
        started(
            request,
            scope_of(request.params.library_id),
        ) matches ProgressView::AwaitExecution { call: _, ticket } ==> forall|
            execution: ExecutionView,
        | #[trigger]
            finished(ticket, execution) == response_of(
                request,
                Answer { library_open: true, execution },
            ),
        started(
            request,
            scope_of(request.params.library_id),
        ) matches ProgressView::AwaitLibrary { request: held, library } ==> held == request
            && scope_of(request.params.library_id) == Some(Ok::<u128, Seq<char>>(library)),
{
}

/// What a request comes to after the library lookup answers to it.
proof fn lemma_resumed_answers(request: JsonRpcRequestView, library: u128, open: bool)
    requires
        scope_of(request.params.library_id) == Some(Ok::<u128, Seq<char>>(library)),
    ensures
        resumed(request, library, open) matches ProgressView::Done(response) ==> forall|
            execution: ExecutionView,
        |
            response == #[trigger] response_of(request, Answer { library_open: open, execution }),
        resumed(request, library, open) matches ProgressView::AwaitExecution {
            call: _,
            ticket,
        } ==> open && forall|execution: ExecutionView| #[trigger]
            finished(ticket, execution) == response_of(
                request,
                Answer { library_open: true, execution },
            ),
        !(resumed(request, library, open) is AwaitLibrary),
{
}

impl Exchange {
    /// Takes in what the held request has come to, and goes as far as can be
    /// gone without the engine.
    fn proceed(self, progress: Progress, Ghost(answer): Ghost<Answer>) -> (step: Step)
        requires
            self.aligned(1),
            progress matches Progress::Done(response) ==> response@.well_formed() && response@
                == response_of(self.requests@[self.responses@.len() as int], answer),
            progress matches Progress::AwaitExecution { call: _, ticket } ==> forall|
                execution: ExecutionView,
            | #[trigger]
                finished(ticket@, execution) == response_of(
                    self.requests@[self.responses@.len() as int],
                    Answer { library_open: true, execution },
                ),
            !(progress is AwaitLibrary),
        ensures
            step.flow() == flow_after(
                self.batch,
                self.requests@,
                responses_view(self.responses@),
                progress@,
            ),
            step.sound(),
            step.batch() == self.batch,
            !(step is Finished) ==> step.requests() == self.requests@,
            step matches Step::Finished(reply) ==> replied(self.batch, self.requests@, reply@),
    {
        let mut exchange = self;
        match progress {
            Progress::Done(response) => {
                proof {
                    assert(responses_view(exchange.responses@.push(response)) =~= responses_view(
                        exchange.responses@,
                    ).push(response@));
                }
                exchange.responses.push(response);
                exchange.advance()
            },
            Progress::AwaitExecution { call, ticket } => Step::Execute {
                request: call,
                pending: PendingExecution { exchange, ticket },
            },
            Progress::AwaitLibrary { request, library } => {
                proof {
                    assert(false);
                }
                Step::LookupLibrary(PendingLibrary { exchange, request, library })
            },
        }
    }

    /// Settles the requests at the head of the queue that need nothing of
    /// the engine, up to the first one that does, or to the end.
    fn advance(self) -> (step: Step)
        requires
            self.aligned(0),
        ensures
            step.flow() == flow_from(self.batch, self.requests@, responses_view(self.responses@)),
            step.sound(),
            step.batch() == self.batch,
            !(step is Finished) ==> step.requests() == self.requests@,
            step matches Step::Finished(reply) ==> replied(self.batch, self.requests@, reply@),
    {
        let mut exchange = self;
        let ghost batch = self.batch;
        let ghost requests = self.requests@;
        let ghost goal = flow_from(batch, requests, responses_view(self.responses@));
        while exchange.queue.len() > 0
            invariant
                batch == self.batch,
                requests == self.requests@,
                goal == flow_from(self.batch, self.requests@, responses_view(self.responses@)),
                exchange.aligned(0),
                exchange.batch == batch,
                exchange.requests@ == requests,
                flow_from(batch, requests, responses_view(exchange.responses@)) == goal,
            decreases exchange.queue@.len(),
        {
            let ghost settled = responses_view(exchange.responses@);
            let ghost index = exchange.responses@.len() as int;
            let ghost before = exchange;
            let request = exchange.queue.remove(0);
            assert(request@ == requests[index]) by {
                assert(before.queue@[0]@ == requests[index]);
            }
            assert(exchange.aligned(1)) by {
                assert forall|j: int| 0 <= j < exchange.queue@.len() implies (
                #[trigger] exchange.queue@[j])@ == requests[index + 1 + j] by {
                    assert(exchange.queue@[j] == before.queue@[j + 1]);
                }
            }
            let progress = process_single_request(request);
            proof {
                lemma_started_answers(
                    requests[index],
                    Answer { library_open: false, execution: ExecutionView::TimedOut },
                );
            }
            match progress {
                Progress::Done(response) => {
                    proof {
                        assert(responses_view(exchange.responses@.push(response))
                            =~= settled.push(response@));
                    }
                    exchange.responses.push(response);
                },
                Progress::AwaitLibrary { request, library } => {
                    return Step::LookupLibrary(PendingLibrary { exchange, request, library });
                },
                Progress::AwaitExecution { call, ticket } => {
                    return Step::Execute {
                        request: call,
                        pending: PendingExecution { exchange, ticket },
                    };
                },
            }
        }
        let Exchange { batch, queue: _, responses, requests: _ } = exchange;
        proof {
            assert(echoed(requests, responses_view(responses@)));
        }
        if batch {
            Step::Finished(Reply::Batch(responses))
        } else {
            let mut responses = responses;
            let response = responses.remove(0);
            Step::Finished(Reply::Single(response))
        }
    }
}

/// Builds the response to a payload that cannot be read.
pub fn parse_error_response(reason: &str) -> (r: JsonRpcResponse)
    ensures
        r@ == parse_error(reason@),
        r@.well_formed(),
{
    proof {
        reveal_strlit("");
        assert(""@ =~= Seq::<char>::empty());
    }
    JsonRpcResponse::bare_failure("".to_string(), -32700, join("Parse error: ", reason))
}

/// Where the exchange for a payload begins.
pub open spec fn opening(parsed: ParsedView) -> Flow {
    match parsed {
        ParsedView::Batch(requests) => flow_from(true, requests, Seq::empty()),
        ParsedView::Single(request) => flow_from(false, seq![request], Seq::empty()),
        ParsedView::Malformed(reason) => Flow::Finished {
            reply: ReplyView::Single(parse_error(reason)),
        },
    }
}

/// Begins the exchange for a payload, and goes as far as can be gone without
/// the engine. A payload that cannot be read is answered at once, with a
/// parse error under an empty id.
pub fn handle_json_rpc_request(parsed: Parsed) -> (step: Step)
    ensures
        step.flow() == opening(parsed@),
        step.sound(),
        !(step is Finished) ==> step.requests() == requests_of(parsed@) && step.batch() == (parsed
            is Batch),
        step matches Step::Finished(reply) ==> (parsed is Malformed || replied(
            parsed is Batch,
            requests_of(parsed@),
            reply@,
        )),
{
    match parsed {
        Parsed::Batch(requests) => {
            let ghost views = requests_view(requests@);
            let exchange = Exchange {
                batch: true,
                queue: requests,
                responses: Vec::new(),
                requests: Ghost(views),
            };
            assert(responses_view(exchange.responses@) =~= Seq::empty());
            exchange.advance()
        },
        Parsed::Single(request) => {
            let ghost views = seq![request@];
            let mut queue: Vec<JsonRpcRequest> = Vec::new();
            queue.push(request);
            let exchange = Exchange {
                batch: false,
                queue,
                responses: Vec::new(),
                requests: Ghost(views),
            };
            assert(responses_view(exchange.responses@) =~= Seq::empty());
            exchange.advance()
        },
        Parsed::Malformed(reason) => Step::Finished(
            Reply::Single(parse_error_response(reason.as_str())),
        ),
    }
}

/// A payload that cannot be read is answered at once, with one response:
/// a parse error under an empty id, whatever the words of the reader.
pub proof fn lemma_malformed_payload(reason: Seq<char>)
    ensures
        opening(ParsedView::Malformed(reason)) == (Flow::Finished {
            reply: ReplyView::Single(parse_error(reason)),
        }),
        parse_error(reason).id.len() == 0,
        parse_error(reason).error->0.code == -32700,
        parse_error(reason).result is None,
        parse_error(reason).well_formed(),
{
}

/// A method is in a known namespace: it names a query or an action.
pub open spec fn known_namespace(method: Seq<char>) -> bool {
    "query:"@.is_prefix_of(method) || "action:"@.is_prefix_of(method)
}

/// A request is well-formed when its library identifier, if it has one, can
/// be read, and its method is in a known namespace.
pub open spec fn well_formed_request(request: JsonRpcRequestView) -> bool {
    &&& !(scope_of(request.params.library_id) matches Some(Err(_)))
    &&& known_namespace(request.method)
}

/// Every response echoes the id of its request, and carries a result or an
/// error, never both and never neither, whatever the engine answers.
pub proof fn lemma_response_echoes_id(request: JsonRpcRequestView, answer: Answer)
    ensures
        response_of(request, answer).id == request.id,
        response_of(request, answer).well_formed(),
{
}

/// The reply to a batch holds one response for each request, and the
/// response at each place echoes the id of the request at that place.
pub proof fn lemma_reply_echoes_ids(
    requests: Seq<JsonRpcRequestView>,
    responses: Seq<JsonRpcResponseView>,
)
    requires
        echoed(requests, responses),
    ensures
        responses.len() == requests.len(),
        forall|i: int| 0 <= i < requests.len() ==> (#[trigger] responses[i]).id == requests[i].id,
{
    assert forall|i: int| 0 <= i < requests.len() implies (#[trigger] responses[i]).id
        == requests[i].id by {
        assert(answers_to(requests[i], responses[i]));
        let answer = choose|answer: Answer| responses[i] == #[trigger] response_of(
            requests[i],
            answer,
        );
        lemma_response_echoes_id(requests[i], answer);
    }
}

/// The entries of a batch are independent. A request that is not
/// well-formed is answered with an error, whatever the engine answers and
/// whatever stands beside it; a well-formed one whose library is open and
/// whose run gives a payload is answered with that payload.
pub proof fn lemma_only_malformed_entries_fail(
    request: JsonRpcRequestView,
    answer: Answer,
    payload: JsonView,
)
    ensures
        !well_formed_request(request) ==> response_of(request, answer).error is Some,
        well_formed_request(request) ==> response_of(
            request,
            Answer {
                library_open: true,
                execution: ExecutionView::Completed(DaemonResponseView::JsonOk(payload)),
            },
        ) == success(request.id, payload),
{
}

/// A method outside the known namespaces never reaches the engine: no
/// stage hands the request over to be run, and once its library, if any, is
/// found open, the request is answered with the "invalid method" error.
pub proof fn lemma_unknown_namespace_never_runs(
    request: JsonRpcRequestView,
    library: u128,
    open: bool,
    answer: Answer,
)
    requires
        !known_namespace(request.method),
    ensures
        !(started(request, scope_of(request.params.library_id)) is AwaitExecution),
        !(resumed(request, library, open) is AwaitExecution),
        request.params.library_id is None || (scope_of(request.params.library_id) matches Some(
            Ok(_),
        ) && answer.library_open) ==> response_of(request, answer) == invalid_method(
            request.id,
            "Invalid method prefix: "@ + request.method,
        ),
        invalid_method(request.id, "Invalid method prefix: "@ + request.method).error->0.code
            == -32601,
{
}

/// A library identifier that cannot be read is answered with "invalid
/// params", and one that reads as a library that is not open with "library
/// not found", the identifier echoed in the details; both whatever the
/// method is and whatever a run would have given.
pub proof fn lemma_library_faults(request: JsonRpcRequestView, answer: Answer)
    ensures
        scope_of(request.params.library_id) matches Some(Err(reason)) ==> response_of(
            request,
            answer,
        ) == invalid_library_id(request.id, request.params.library_id->0, reason)
            && response_of(request, answer).error->0.code == -32602,
        scope_of(request.params.library_id) matches Some(Ok(_)) && !answer.library_open
            ==> response_of(request, answer) == library_not_found(
            request.id,
            request.params.library_id->0,
        ) && response_of(request, answer).error->0.code == -32004 && response_of(
            request,
            answer,
        ).error->0.data->0.error_type == "LIBRARY_NOT_FOUND"@,
{
}

/// A well-formed request whose run does not end in time is answered with
/// the timeout error, which names the method and the budget that was
/// exceeded: 120 seconds for a long-running method, 30 for any other.
pub proof fn lemma_timeout_reports_budget(request: JsonRpcRequestView)
    requires
        well_formed_request(request),
    ensures
        response_of(request, Answer { library_open: true, execution: ExecutionView::TimedOut })
            == timed_out(request.id, request.method, timeout_secs(request.method)),
        timed_out(request.id, request.method, timeout_secs(request.method)).error->0.code
            == -32000,
        is_long_running(request.method) ==> timeout_secs(request.method) == 120,
        !is_long_running(request.method) ==> timeout_secs(request.method) == 30,
{
}

} // verus!
