//! The core of an HTTP server that is embedded in a host with a single
//! non-blocking control loop: path keys, the request router, the handoff
//! slot, and the decisions of the connection worker and of the host's
//! recurring steps.

pub mod handoff_slot;
pub mod http_connection_server;
pub mod http_connection_task;
pub mod http_message;
pub mod http_path;
pub mod http_request_handler;
pub mod http_systems;
pub mod text;

pub use handoff_slot::EmptySlot;
pub use handoff_slot::HandoffSlot;
pub use http_connection_server::HttpConnectionServer;
pub use http_connection_task::HttpConnectionTask;
pub use http_message::HttpHeader;
pub use http_message::HttpRequest;
pub use http_message::HttpResponse;
pub use http_path::HttpPath;
pub use http_request_handler::HttpRequestHandler;
pub use http_request_handler::HttpRequestHandlerFn;
pub use http_request_handler::RouterError;

use bevy::prelude::World;
use vstd::prelude::*;

verus! {

/// The text that the example handler answers with.
pub open spec fn example_body_spec() -> Seq<char> {
    "Hello world"@
}

/// A handler to start from: it answers every request with 200 and the plain
/// text `Hello world`, and leaves the world as it is. A handler that fails
/// returns a status instead, such as `Err(NOT_FOUND)`.
pub fn example_handler_fn(_world: &mut World, _request: &HttpRequest) -> (result: Result<
    HttpResponse,
    u16,
>)
    ensures
        *final(_world) == *old(_world),
        result matches Ok(response) && {
            &&& response.status == 200
            &&& response.headers.deep_view() == seq![
                ("Content-Type"@, "text/plain; charset=utf-8"@),
            ]
            &&& response.body@ == vstd::utf8::encode_utf8(example_body_spec())
        },
{
    let mut headers: Vec<HttpHeader> = Vec::new();
    headers.push(HttpHeader::new("Content-Type", "text/plain; charset=utf-8"));
    assert(headers.deep_view() =~= seq![("Content-Type"@, "text/plain; charset=utf-8"@)]);
    Ok(HttpResponse { status: 200, headers, body: "Hello world".as_bytes_vec() })
}

} // verus!
