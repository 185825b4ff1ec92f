//! The connection worker: the decisions of the loop that serves one
//! connection.
//!
//! The worker reads a request, publishes it in the request slot, waits until
//! the host has put a response into the response slot, writes the response,
//! and starts over if the response grants keep-alive. The reading, writing
//! and closing are the host's part: it performs what `pending` names and
//! hands the outcome to `step`, which moves the worker to its next state.

use vstd::prelude::*;
use vstd::string::StringExecFns;
use std::sync::Arc;
use std::sync::Mutex;
use crate::handoff_slot::shared_has;
use crate::handoff_slot::shared_set;
use crate::handoff_slot::shared_take;
use crate::handoff_slot::EmptySlot;
use crate::handoff_slot::HandoffSlot;
use crate::http_message::HttpRequest;
use crate::http_message::HttpResponse;

verus! {

/// Where the worker stands in its loop.
#[derive(Clone, Copy, Debug, PartialEq, Eq, Structural)]
pub enum WorkerState {
    /// The next request is to be read. The worker starts here.
    AwaitingRequest,
    /// A request was read and is to be put into the request slot.
    RequestPublished,
    /// The request is in its slot; the response slot is polled.
    AwaitingResponse,
    /// The response was taken from its slot and is to be written.
    ResponseSent,
    /// The connection ended in order. Terminal.
    Closed,
    /// Reading or writing failed. Terminal.
    Failed,
}

/// What the host reports to the worker.
#[derive(Clone, Copy, Debug, PartialEq, Eq, Structural)]
pub enum WorkerEvent {
    /// A request was read.
    RequestRead,
    /// The peer closed the connection before another request came.
    PeerClosed,
    /// Reading failed; the detail is the status that the reader gave.
    ReadFailed,
    /// The request was put into the request slot.
    RequestStored,
    /// The response slot was empty.
    ResponseMissing,
    /// The response was taken from the response slot; `keep_alive` says
    /// whether its headers grant keep-alive.
    ResponseTaken { keep_alive: bool },
    /// The response was written.
    ResponseWritten,
    /// Writing failed; `peer_closed` says whether the error's kind is that of
    /// a connection that the peer has closed. The detail is the error's text.
    WriteFailed { peer_closed: bool },
    /// The connection was flushed and shut down.
    TornDown,
    /// Flushing or shutting down failed; `peer_closed` and the detail are as
    /// for `WriteFailed`.
    TeardownFailed { peer_closed: bool },
}

/// What the host is to do next.
#[derive(Clone, Copy, Debug, PartialEq, Eq, Structural)]
pub enum WorkerAction {
    /// Read one request; report `RequestRead`, `PeerClosed` or `ReadFailed`.
    ReadRequest,
    /// Put the request into the request slot; report `RequestStored`.
    PublishRequest,
    /// Look into the response slot, yielding first if it was empty the last
    /// time; report `ResponseTaken` or `ResponseMissing`.
    PollResponse,
    /// Write the response; report `ResponseWritten` or `WriteFailed`.
    WriteResponse,
    /// Flush and shut down; report `TornDown` or `TeardownFailed`.
    Teardown,
    /// Return the worker's result.
    Finish,
}

/// The refusal of an event that the worker did not expect in its state.
#[derive(Clone, Copy, Debug, PartialEq, Eq, Structural)]
pub struct UnexpectedEvent {
    /// The state in which the event came.
    pub state: WorkerState,
    /// The event.
    pub event: WorkerEvent,
}

/// The worker as its decisions see it.
pub struct WorkerModel {
    /// The state.
    pub state: WorkerState,
    /// In `ResponseSent`: whether the response being written grants
    /// keep-alive.
    pub keep_alive: bool,
    /// Whether the teardown is over.
    pub finished: bool,
    /// The failure to report, if there is one.
    pub failure: Option<Seq<char>>,
}

/// The worker before its first step.
pub open spec fn initial_model() -> WorkerModel {
    WorkerModel { state: WorkerState::AwaitingRequest, keep_alive: false, finished: false, failure: None }
}

/// Whether the state is terminal.
pub open spec fn is_terminal(state: WorkerState) -> bool {
    state == WorkerState::Closed || state == WorkerState::Failed
}

/// Whether `event` is one of the outcomes of what the worker has the host do
/// at `model`.
pub open spec fn expects_spec(model: WorkerModel, event: WorkerEvent) -> bool {
    match model.state {
        WorkerState::AwaitingRequest => event == WorkerEvent::RequestRead || event
            == WorkerEvent::PeerClosed || event == WorkerEvent::ReadFailed,
        WorkerState::RequestPublished => event == WorkerEvent::RequestStored,
        WorkerState::AwaitingResponse => event == WorkerEvent::ResponseMissing
            || event is ResponseTaken,
        WorkerState::ResponseSent => event == WorkerEvent::ResponseWritten || event is WriteFailed,
        WorkerState::Closed | WorkerState::Failed => !model.finished && (event
            == WorkerEvent::TornDown || event is TeardownFailed),
    }
}

/// The failure of a read: the peer's address, a colon and a space, and the
/// status.
pub open spec fn read_failure_spec(peer: Seq<char>, detail: Seq<char>) -> Seq<char> {
    peer + ": "@ + detail
}

/// The failure of a write: the peer's address, then what failed and the
/// error.
pub open spec fn write_failure_spec(peer: Seq<char>, detail: Seq<char>) -> Seq<char> {
    peer + ": send_response returned "@ + detail
}

/// The failure of a teardown: the peer's address, a colon and a space, and
/// the error.
pub open spec fn teardown_failure_spec(peer: Seq<char>, detail: Seq<char>) -> Seq<char> {
    peer + ": "@ + detail
}

/// The failure on record after a teardown has failed too: the failure of the
/// read or write first, if there was one, then the failure of the teardown.
pub open spec fn with_teardown_spec(first: Option<Seq<char>>, teardown: Seq<char>) -> Seq<char> {
    match first {
        Some(failure) => failure + "; "@ + teardown,
        None => teardown,
    }
}

/// The worker after `event`, which it expects at `model`. `peer` is the
/// peer's address and `detail` the text that comes with a failure.
pub open spec fn step_spec(
    model: WorkerModel,
    peer: Seq<char>,
    event: WorkerEvent,
    detail: Seq<char>,
) -> WorkerModel {
    match event {
        WorkerEvent::RequestRead => WorkerModel { state: WorkerState::RequestPublished, ..model },
        WorkerEvent::PeerClosed => WorkerModel { state: WorkerState::Closed, ..model },
        WorkerEvent::ReadFailed => WorkerModel {
            state: WorkerState::Failed,
            failure: Some(read_failure_spec(peer, detail)),
            ..model
        },
        WorkerEvent::RequestStored => WorkerModel { state: WorkerState::AwaitingResponse, ..model },
        WorkerEvent::ResponseMissing => model,
        WorkerEvent::ResponseTaken { keep_alive } => WorkerModel {
            state: WorkerState::ResponseSent,
            keep_alive,
            ..model
        },
        WorkerEvent::ResponseWritten => WorkerModel {
            state: if model.keep_alive {
                WorkerState::AwaitingRequest
            } else {
                WorkerState::Closed
            },
            keep_alive: false,
            ..model
        },
        WorkerEvent::WriteFailed { peer_closed } => if peer_closed {
            WorkerModel { state: WorkerState::Closed, keep_alive: false, ..model }
        } else {
            WorkerModel {
                state: WorkerState::Failed,
                keep_alive: false,
                failure: Some(write_failure_spec(peer, detail)),
                ..model
            }
        },
        WorkerEvent::TornDown => WorkerModel { finished: true, ..model },
        WorkerEvent::TeardownFailed { peer_closed } => if peer_closed {
            WorkerModel { finished: true, ..model }
        } else {
            WorkerModel {
                finished: true,
                failure: Some(
                    with_teardown_spec(model.failure, teardown_failure_spec(peer, detail)),
                ),
                ..model
            }
        },
    }
}

/// What the host is to do at `model`.
pub open spec fn pending_spec(model: WorkerModel) -> WorkerAction {
    match model.state {
        WorkerState::AwaitingRequest => WorkerAction::ReadRequest,
        WorkerState::RequestPublished => WorkerAction::PublishRequest,
        WorkerState::AwaitingResponse => WorkerAction::PollResponse,
        WorkerState::ResponseSent => WorkerAction::WriteResponse,
        WorkerState::Closed | WorkerState::Failed => if model.finished {
            WorkerAction::Finish
        } else {
            WorkerAction::Teardown
        },
    }
}

/// The worker's result once it has finished: the failure, if there is one.
pub open spec fn result_spec(model: WorkerModel) -> Result<(), Seq<char>> {
    match model.failure {
        Some(failure) => Err(failure),
        None => Ok(()),
    }
}

/// What holds of a worker at every step: a failure is on record in `Failed`,
/// only a finished worker in `Closed` can have one otherwise, and only a
/// worker in a terminal state is finished.
pub open spec fn consistent(model: WorkerModel) -> bool {
    &&& model.state == WorkerState::Failed ==> model.failure is Some
    &&& model.failure is Some ==> model.state == WorkerState::Failed || (model.state
        == WorkerState::Closed && model.finished)
    &&& model.finished ==> is_terminal(model.state)
    &&& model.keep_alive ==> model.state == WorkerState::ResponseSent
}

/// The worker of one connection, whose requests are of type `Q` and whose
/// responses are of type `R`. The worker passes them on as they are.
#[verifier::reject_recursive_types(Q)]
#[verifier::reject_recursive_types(R)]
pub struct HttpConnectionServer<Q = HttpRequest, R = HttpResponse> {
    peer: String,
    state: WorkerState,
    keep_alive: bool,
    finished: bool,
    failure: Option<String>,
    request: Arc<Mutex<HandoffSlot<Q>>>,
    response: Arc<Mutex<HandoffSlot<R>>>,
}

impl<Q, R> HttpConnectionServer<Q, R> {
    /// The worker as its decisions see it.
    pub closed spec fn model(&self) -> WorkerModel {
        WorkerModel {
            state: self.state,
            keep_alive: self.keep_alive,
            finished: self.finished,
            failure: match self.failure {
                Some(failure) => Some(failure@),
                None => None,
            },
        }
    }

    /// The peer's address, as text.
    pub closed spec fn peer_spec(&self) -> Seq<char> {
        self.peer@
    }

    /// The worker's end of the request slot.
    pub closed spec fn request_end(&self) -> Arc<Mutex<HandoffSlot<Q>>> {
        self.request
    }

    /// The worker's end of the response slot.
    pub closed spec fn response_end(&self) -> Arc<Mutex<HandoffSlot<R>>> {
        self.response
    }

    /// A worker for the connection to `peer`, with its ends of the two
    /// slots. It awaits the first request.
    pub fn new(
        peer: &str,
        request: Arc<Mutex<HandoffSlot<Q>>>,
        response: Arc<Mutex<HandoffSlot<R>>>,
    ) -> (worker: HttpConnectionServer<Q, R>)
        ensures
            worker.model() == initial_model(),
            worker.peer_spec() == peer@,
            worker.request_end() == request,
            worker.response_end() == response,
    {
        HttpConnectionServer {
            peer: peer.to_owned(),
            state: WorkerState::AwaitingRequest,
            keep_alive: false,
            finished: false,
            failure: None,
            request,
            response,
        }
    }

    /// The state.
    pub fn state(&self) -> (state: WorkerState)
        ensures
            state == self.model().state,
    {
        self.state
    }

    /// What the host is to do next.
    pub fn pending(&self) -> (action: WorkerAction)
        ensures
            action == pending_spec(self.model()),
    {
        match self.state {
            WorkerState::AwaitingRequest => WorkerAction::ReadRequest,
            WorkerState::RequestPublished => WorkerAction::PublishRequest,
            WorkerState::AwaitingResponse => WorkerAction::PollResponse,
            WorkerState::ResponseSent => WorkerAction::WriteResponse,
            WorkerState::Closed | WorkerState::Failed => if self.finished {
                WorkerAction::Finish
            } else {
                WorkerAction::Teardown
            },
        }
    }

    /// Whether `event` is one of the outcomes of what the host has been told
    /// to do.
    pub fn expects(&self, event: WorkerEvent) -> (expected: bool)
        ensures
            expected == expects_spec(self.model(), event),
    {
        match self.state {
            WorkerState::AwaitingRequest => match event {
                WorkerEvent::RequestRead | WorkerEvent::PeerClosed | WorkerEvent::ReadFailed => true,
                _ => false,
            },
            WorkerState::RequestPublished => match event {
                WorkerEvent::RequestStored => true,
                _ => false,
            },
            WorkerState::AwaitingResponse => match event {
                WorkerEvent::ResponseMissing | WorkerEvent::ResponseTaken { .. } => true,
                _ => false,
            },
            WorkerState::ResponseSent => match event {
                WorkerEvent::ResponseWritten | WorkerEvent::WriteFailed { .. } => true,
                _ => false,
            },
            WorkerState::Closed | WorkerState::Failed => match event {
                WorkerEvent::TornDown | WorkerEvent::TeardownFailed { .. } => !self.finished,
                _ => false,
            },
        }
    }

    /// Takes the outcome of what the host was told to do, and tells it what
    /// to do next. `detail` is the text that comes with a failure: the status
    /// of a failed read, the error of a failed write or teardown.
    ///
    /// An event that the worker does not expect in its state is refused, and
    /// the worker stays as it is.
    pub fn step(&mut self, event: WorkerEvent, detail: &str) -> (action: Result<
        WorkerAction,
        UnexpectedEvent,
    >)
        ensures
            expects_spec(old(self).model(), event) ==> {
                &&& final(self).model() == step_spec(
                    old(self).model(),
                    old(self).peer_spec(),
                    event,
                    detail@,
                )
                &&& action == Ok::<WorkerAction, UnexpectedEvent>(pending_spec(final(self).model()))
            },
            !expects_spec(old(self).model(), event) ==> {
                &&& final(self).model() == old(self).model()
                &&& action == Err::<WorkerAction, UnexpectedEvent>(
                    UnexpectedEvent { state: old(self).model().state, event },
                )
            },
            final(self).peer_spec() == old(self).peer_spec(),
            final(self).request_end() == old(self).request_end(),
            final(self).response_end() == old(self).response_end(),
    {
        if !self.expects(event) {
            return Err(UnexpectedEvent { state: self.state, event });
        }
        match event {
            WorkerEvent::RequestRead => {
                self.state = WorkerState::RequestPublished;
            },
            WorkerEvent::PeerClosed => {
                self.state = WorkerState::Closed;
            },
            WorkerEvent::ReadFailed => {
                let mut failure = self.peer.clone();
                failure.append(": ");
                failure.append(detail);
                self.state = WorkerState::Failed;
                self.failure = Some(failure);
            },
            WorkerEvent::RequestStored => {
                self.state = WorkerState::AwaitingResponse;
            },
            WorkerEvent::ResponseMissing => {},
            WorkerEvent::ResponseTaken { keep_alive } => {
                self.state = WorkerState::ResponseSent;
                self.keep_alive = keep_alive;
            },
            WorkerEvent::ResponseWritten => {
                self.state = if self.keep_alive {
                    WorkerState::AwaitingRequest
                } else {
                    WorkerState::Closed
                };
                self.keep_alive = false;
            },
            WorkerEvent::WriteFailed { peer_closed } => {
                self.keep_alive = false;
                if peer_closed {
                    self.state = WorkerState::Closed;
                } else {
                    let mut failure = self.peer.clone();
                    failure.append(": send_response returned ");
                    failure.append(detail);
                    self.state = WorkerState::Failed;
                    self.failure = Some(failure);
                }
            },
            WorkerEvent::TornDown => {
                self.finished = true;
            },
            WorkerEvent::TeardownFailed { peer_closed } => {
                self.finished = true;
                if !peer_closed {
                    let mut failure = match &self.failure {
                        Some(first) => {
                            let mut text = first.clone();
                            text.append("; ");
                            text
                        },
                        None => String::new(),
                    };
                    failure.append(self.peer.as_str());
                    failure.append(": ");
                    failure.append(detail);
                    proof {
                        let teardown = teardown_failure_spec(self.peer@, detail@);
                        assert(failure@ =~= with_teardown_spec(old(self).model().failure, teardown));
                    }
                    self.failure = Some(failure);
                }
            },
        }
        Ok(self.pending())
    }

    /// The worker's result: success, or the failure. It is final once the
    /// worker has finished.
    pub fn result(&self) -> (result: Result<(), String>)
        ensures
            result is Ok == result_spec(self.model()) is Ok,
            result matches Err(failure) ==> result_spec(self.model()) == Err::<(), Seq<char>>(
                failure@,
            ),
    {
        match &self.failure {
            Some(failure) => Err(failure.clone()),
            None => Ok(()),
        }
    }

    /// Puts `request` into the request slot, in place of whatever it holds.
    pub fn set_request(&mut self, request: Option<Q>)
        ensures
            *final(self) == *old(self),
    {
        shared_set(&self.request, request);
    }

    /// Whether the response slot holds a response at the moment of the call.
    pub fn has_response(&self) -> (full: bool) {
        shared_has(&self.response)
    }

    /// Takes the response out of its slot and leaves the slot empty. To take
    /// from an empty slot is an error of the caller, who tests `has_response`
    /// first: the result is then the refusal `EmptySlot`, which is no answer
    /// to recover from.
    pub fn take_response(&mut self) -> (response: Result<R, EmptySlot>)
        ensures
            *final(self) == *old(self),
    {
        shared_take(&self.response)
    }
}

/// What a worker has done after a sequence of reports: where it stands, and
/// how many requests it has read and stored and how many responses it has
/// taken and written.
pub struct WorkerTrace {
    /// The worker.
    pub model: WorkerModel,
    /// The requests read.
    pub read: nat,
    /// The requests put into the request slot.
    pub stored: nat,
    /// The responses taken from the response slot.
    pub taken: nat,
    /// The responses written.
    pub written: nat,
}

/// One more if the condition holds.
pub open spec fn counted(count: nat, condition: bool) -> nat {
    if condition {
        count + 1
    } else {
        count
    }
}

/// What a new worker for `peer` has done after `reports`, each an event with
/// its detail, in order. A report that the worker does not expect is
/// refused, as `step` refuses it, and counts for nothing.
pub open spec fn trace_spec(peer: Seq<char>, reports: Seq<(WorkerEvent, Seq<char>)>) -> WorkerTrace
    decreases reports.len(),
{
    if reports.len() == 0 {
        WorkerTrace { model: initial_model(), read: 0, stored: 0, taken: 0, written: 0 }
    } else {
        let before = trace_spec(peer, reports.drop_last());
        let (event, detail) = reports.last();
        if expects_spec(before.model, event) {
            WorkerTrace {
                model: step_spec(before.model, peer, event, detail),
                read: counted(before.read, event == WorkerEvent::RequestRead),
                stored: counted(before.stored, event == WorkerEvent::RequestStored),
                taken: counted(before.taken, event is ResponseTaken),
                written: counted(before.written, event == WorkerEvent::ResponseWritten),
            }
        } else {
            before
        }
    }
}

/// How far the exchange in hand has come, by the worker's state: every
/// request read has gone all the way to a written response, but for the one
/// in hand.
pub open spec fn in_step(trace: WorkerTrace) -> bool {
    match trace.model.state {
        WorkerState::AwaitingRequest => {
            &&& trace.read == trace.stored
            &&& trace.stored == trace.taken
            &&& trace.taken == trace.written
        },
        WorkerState::RequestPublished => {
            &&& trace.read == trace.stored + 1
            &&& trace.stored == trace.taken
            &&& trace.taken == trace.written
        },
        WorkerState::AwaitingResponse => {
            &&& trace.read == trace.stored
            &&& trace.stored == trace.taken + 1
            &&& trace.taken == trace.written
        },
        WorkerState::ResponseSent => {
            &&& trace.read == trace.stored
            &&& trace.stored == trace.taken
            &&& trace.taken == trace.written + 1
        },
        WorkerState::Closed | WorkerState::Failed => {
            &&& trace.read == trace.stored
            &&& trace.stored == trace.taken
            &&& trace.written <= trace.taken <= trace.written + 1
        },
    }
}

/// One exchange at a time: whatever is reported to a worker, in whatever
/// order, it stays consistent, and it never stores a request before it has
/// taken the response to the one before, nor reads one before it has written
/// that response.
pub proof fn lemma_one_exchange_at_a_time(peer: Seq<char>, reports: Seq<(WorkerEvent, Seq<char>)>)
    ensures
        consistent(trace_spec(peer, reports).model),
        in_step(trace_spec(peer, reports)),
        trace_spec(peer, reports).written <= trace_spec(peer, reports).taken,
        trace_spec(peer, reports).taken <= trace_spec(peer, reports).stored,
        trace_spec(peer, reports).stored <= trace_spec(peer, reports).read,
        trace_spec(peer, reports).stored <= trace_spec(peer, reports).taken + 1,
        trace_spec(peer, reports).read <= trace_spec(peer, reports).written + 1,
    decreases reports.len(),
{
    if reports.len() > 0 {
        lemma_one_exchange_at_a_time(peer, reports.drop_last());
        let before = trace_spec(peer, reports.drop_last());
        let (event, detail) = reports.last();
        if expects_spec(before.model, event) {
            lemma_step_consistent(before.model, peer, event, detail);
        }
    }
}

/// Every step keeps the worker consistent.
pub proof fn lemma_step_consistent(
    model: WorkerModel,
    peer: Seq<char>,
    event: WorkerEvent,
    detail: Seq<char>,
)
    requires
        consistent(model),
        expects_spec(model, event),
    ensures
        consistent(step_spec(model, peer, event, detail)),
{
}

/// The terminal states are terminal: no step leaves one, and none reads
/// another request from there.
pub proof fn lemma_terminal_stays(
    model: WorkerModel,
    peer: Seq<char>,
    event: WorkerEvent,
    detail: Seq<char>,
)
    requires
        is_terminal(model.state),
        expects_spec(model, event),
    ensures
        step_spec(model, peer, event, detail).state == model.state,
        step_spec(model, peer, event, detail).finished,
        pending_spec(step_spec(model, peer, event, detail)) == WorkerAction::Finish,
{
}

/// The worker is strictly sequential: it comes to read a request only from
/// having written the response to the one before, and that response granted
/// keep-alive.
pub proof fn lemma_read_follows_write(
    model: WorkerModel,
    peer: Seq<char>,
    event: WorkerEvent,
    detail: Seq<char>,
)
    requires
        expects_spec(model, event),
        step_spec(model, peer, event, detail).state == WorkerState::AwaitingRequest,
    ensures
        model.state == WorkerState::ResponseSent,
        event == WorkerEvent::ResponseWritten,
        model.keep_alive,
{
}

/// A request is published only after it was read, and a response is written
/// only after it was taken from its slot.
pub proof fn lemma_publish_and_write_order(
    model: WorkerModel,
    peer: Seq<char>,
    event: WorkerEvent,
    detail: Seq<char>,
)
    requires
        expects_spec(model, event),
    ensures
        step_spec(model, peer, event, detail).state == WorkerState::RequestPublished ==> model.state
            == WorkerState::AwaitingRequest && event == WorkerEvent::RequestRead,
        step_spec(model, peer, event, detail).state == WorkerState::ResponseSent ==> model.state
            == WorkerState::AwaitingResponse && event is ResponseTaken,
        step_spec(model, peer, event, detail).state == WorkerState::AwaitingResponse ==> (model.state
            == WorkerState::RequestPublished && event == WorkerEvent::RequestStored) || (model.state
            == WorkerState::AwaitingResponse && event == WorkerEvent::ResponseMissing),
{
}

/// Keep-alive is decided by the response: once a response that grants it is
/// written, the worker reads the next request; once one that does not is
/// written, or the write fails, the worker reads no more.
pub proof fn lemma_keep_alive_decides(
    model: WorkerModel,
    peer: Seq<char>,
    event: WorkerEvent,
    detail: Seq<char>,
)
    requires
        consistent(model),
        model.state == WorkerState::ResponseSent,
        expects_spec(model, event),
    ensures
        event == WorkerEvent::ResponseWritten && model.keep_alive ==> pending_spec(
            step_spec(model, peer, event, detail),
        ) == WorkerAction::ReadRequest,
        !(event == WorkerEvent::ResponseWritten && model.keep_alive) ==> is_terminal(
            step_spec(model, peer, event, detail).state,
        ) && pending_spec(step_spec(model, peer, event, detail)) == WorkerAction::Teardown,
{
}

/// The result of a finished worker. A teardown that went well, or failed
/// only because the peer has closed the connection, leaves the result as it
/// was: success in `Closed`, the failure of the read or write in `Failed`. A
/// teardown that failed otherwise is reported in either state, with the
/// peer's address, after the failure of the read or write where there was
/// one.
pub proof fn lemma_result(
    model: WorkerModel,
    peer: Seq<char>,
    event: WorkerEvent,
    detail: Seq<char>,
)
    requires
        consistent(model),
        is_terminal(model.state),
        expects_spec(model, event),
    ensures
        event == WorkerEvent::TornDown || event == (WorkerEvent::TeardownFailed {
            peer_closed: true,
        }) ==> result_spec(step_spec(model, peer, event, detail)) == result_spec(model),
        model.state == WorkerState::Closed ==> result_spec(model) == Ok::<(), Seq<char>>(()),
        model.state == WorkerState::Failed ==> result_spec(model) == Err::<(), Seq<char>>(
            model.failure->0,
        ),
        model.state == WorkerState::Closed && event == (WorkerEvent::TeardownFailed {
            peer_closed: false,
        }) ==> result_spec(step_spec(model, peer, event, detail)) == Err::<(), Seq<char>>(
            peer + ": "@ + detail,
        ),
        model.state == WorkerState::Failed && event == (WorkerEvent::TeardownFailed {
            peer_closed: false,
        }) ==> result_spec(step_spec(model, peer, event, detail)) == Err::<(), Seq<char>>(
            model.failure->0 + "; "@ + (peer + ": "@ + detail),
        ),
{
}

/// Every failure names the peer: the text that a failed read, write or
/// teardown puts on record holds the peer's address.
pub proof fn lemma_failure_names_peer(
    model: WorkerModel,
    peer: Seq<char>,
    event: WorkerEvent,
    detail: Seq<char>,
)
    requires
        expects_spec(model, event),
        step_spec(model, peer, event, detail).failure != model.failure,
    ensures
        step_spec(model, peer, event, detail).failure is Some,
        holds(step_spec(model, peer, event, detail).failure->0, peer),
{
    let failure = step_spec(model, peer, event, detail).failure->0;
    match event {
        WorkerEvent::ReadFailed => {
            lemma_holds(Seq::<char>::empty(), peer, ": "@ + detail);
            assert(failure =~= Seq::<char>::empty() + peer + (": "@ + detail));
        },
        WorkerEvent::WriteFailed { peer_closed } => {
            lemma_holds(Seq::<char>::empty(), peer, ": send_response returned "@ + detail);
            assert(failure =~= Seq::<char>::empty() + peer + (": send_response returned "@
                + detail));
        },
        WorkerEvent::TeardownFailed { peer_closed } => {
            match model.failure {
                Some(first) => {
                    lemma_holds(first + "; "@, peer, ": "@ + detail);
                    assert(failure =~= first + "; "@ + peer + (": "@ + detail));
                },
                None => {
                    lemma_holds(Seq::<char>::empty(), peer, ": "@ + detail);
                    assert(failure =~= Seq::<char>::empty() + peer + (": "@ + detail));
                },
            }
        },
        _ => {},
    }
}

/// `part` stands somewhere in `text`.
pub open spec fn holds(text: Seq<char>, part: Seq<char>) -> bool {
    exists|at: int|
        0 <= at && at + part.len() <= text.len() && #[trigger] text.subrange(
            at,
            at + part.len(),
        ) == part
}

/// A text holds what stands between its front and its back.
pub proof fn lemma_holds(front: Seq<char>, part: Seq<char>, back: Seq<char>)
    ensures
        holds(front + part + back, part),
{
    let text = front + part + back;
    let at = front.len() as int;
    assert(text.subrange(at, at + part.len()) =~= part);
}

} // verus!
