//! The decisions of the host's three recurring steps: accepting connections,
//! reaping the handles of workers that have ended, and completing the
//! responses that the router returned.

use vstd::prelude::*;
use crate::http_message::HttpHeader;
use crate::http_message::HttpResponse;
use crate::text::decimal;
use crate::text::decimal_spec;

verus! {

/// What one non-blocking `accept` on the listener gave.
#[derive(Clone, Copy, Debug, PartialEq, Eq, Structural)]
pub enum AcceptOutcome {
    /// A connection.
    Connected,
    /// No connection is waiting.
    WouldBlock,
    /// Any other error.
    Failed,
}

/// What the accepting step does next.
#[derive(Clone, Copy, Debug, PartialEq, Eq, Structural)]
pub enum AcceptAction {
    /// Switch the connection to blocking mode, make a fresh pair of empty
    /// slots, launch a worker with one end of each, register a handle with
    /// the other ends, and accept again.
    Launch,
    /// End this pass; the next tick accepts again.
    Stop,
    /// The listener is broken: give up the server.
    Abort,
}

/// What the accepting step does after `outcome`.
pub open spec fn accept_spec(outcome: AcceptOutcome) -> AcceptAction {
    match outcome {
        AcceptOutcome::Connected => AcceptAction::Launch,
        AcceptOutcome::WouldBlock => AcceptAction::Stop,
        AcceptOutcome::Failed => AcceptAction::Abort,
    }
}

/// What the accepting step does after `outcome`.
pub fn accept_decision(outcome: AcceptOutcome) -> (action: AcceptAction)
    ensures
        action == accept_spec(outcome),
{
    match outcome {
        AcceptOutcome::Connected => AcceptAction::Launch,
        AcceptOutcome::WouldBlock => AcceptAction::Stop,
        AcceptOutcome::Failed => AcceptAction::Abort,
    }
}

/// What a single poll of a worker's task showed.
#[derive(Debug, PartialEq, Eq)]
pub enum ConnectionStatus {
    /// The worker has not ended.
    Running,
    /// The worker ended in order.
    Disconnected,
    /// The worker ended with a failure.
    Crashed(String),
}

/// `ConnectionStatus` with the failure as a sequence of characters.
pub enum ConnectionStatusView {
    Running,
    Disconnected,
    Crashed(Seq<char>),
}

impl View for ConnectionStatus {
    type V = ConnectionStatusView;

    open spec fn view(&self) -> ConnectionStatusView {
        match self {
            ConnectionStatus::Running => ConnectionStatusView::Running,
            ConnectionStatus::Disconnected => ConnectionStatusView::Disconnected,
            ConnectionStatus::Crashed(failure) => ConnectionStatusView::Crashed(failure@),
        }
    }
}

/// The status that a poll shows: running while the task has no result yet.
pub open spec fn status_spec(polled: Option<Result<(), String>>) -> ConnectionStatusView {
    match polled {
        None => ConnectionStatusView::Running,
        Some(Ok(_)) => ConnectionStatusView::Disconnected,
        Some(Err(failure)) => ConnectionStatusView::Crashed(failure@),
    }
}

/// The status of a connection whose task was polled once, with the result
/// `polled`.
pub fn check_conntask_status(polled: Option<Result<(), String>>) -> (status: ConnectionStatus)
    ensures
        status@ == status_spec(polled),
{
    match polled {
        None => ConnectionStatus::Running,
        Some(Ok(_)) => ConnectionStatus::Disconnected,
        Some(Err(failure)) => ConnectionStatus::Crashed(failure),
    }
}

impl ConnectionStatus {
    /// Whether the handle is to be deregistered: the worker has ended, in
    /// order or not.
    pub fn is_finished(&self) -> (finished: bool)
        ensures
            finished == !(self@ is Running),
    {
        match self {
            ConnectionStatus::Running => false,
            _ => true,
        }
    }
}

/// The headers that complete a response, in order. Each is a default: it is
/// set where the response has no header of that name, and leaves one that
/// the handler has set as it is.
///
/// Where the request asked for keep-alive and the response does not deny it,
/// the connection is kept alive, with a hint on idle time and request count;
/// otherwise it is closed. The length is that of the body, and the type is
/// HTML.
pub open spec fn finalize_spec(
    keep_alive_requested: bool,
    keep_alive_denied: bool,
    body_len: nat,
) -> Seq<(Seq<char>, Seq<char>)> {
    let connection = if keep_alive_requested && !keep_alive_denied {
        seq![("Connection"@, "keep-alive"@), ("Keep-Alive"@, "timeout=30, max=1000"@)]
    } else {
        seq![("Connection"@, "close"@)]
    };
    connection + seq![
        ("Content-Length"@, decimal_spec(body_len)),
        ("Content-Type"@, "text/html; charset=utf-8"@),
    ]
}

/// The headers that complete `response`, the answer to a request that did
/// or did not ask for keep-alive, where the response's headers do or do not
/// deny it. The length is that of the response's body.
pub fn finalize_response(
    keep_alive_requested: bool,
    keep_alive_denied: bool,
    response: &HttpResponse,
) -> (defaults: Vec<HttpHeader>)
    ensures
        defaults.deep_view() == finalize_spec(
            keep_alive_requested,
            keep_alive_denied,
            response.body@.len(),
        ),
{
    let mut defaults: Vec<HttpHeader> = Vec::new();
    if keep_alive_requested && !keep_alive_denied {
        defaults.push(HttpHeader::new("Connection", "keep-alive"));
        defaults.push(HttpHeader::new("Keep-Alive", "timeout=30, max=1000"));
    } else {
        defaults.push(HttpHeader::new("Connection", "close"));
    }
    let length = decimal(response.body.len() as u64);
    defaults.push(HttpHeader::new("Content-Length", length.as_str()));
    defaults.push(HttpHeader::new("Content-Type", "text/html; charset=utf-8"));
    assert(defaults.deep_view() =~= finalize_spec(
        keep_alive_requested,
        keep_alive_denied,
        response.body@.len(),
    ));
    defaults
}

} // verus!
