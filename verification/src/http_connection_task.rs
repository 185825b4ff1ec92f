//! The connection handle: what the host keeps of a connection while a worker
//! serves it. It holds the task in which the worker runs, to see when the
//! worker has ended, and the host's ends of the two slots: it takes requests
//! out of the one and puts responses into the other.

use vstd::prelude::*;
use std::sync::Arc;
use std::sync::Mutex;
use bevy::tasks::Task;
use crate::handoff_slot::shared_has;
use crate::handoff_slot::shared_set;
use crate::handoff_slot::shared_take;
use crate::handoff_slot::EmptySlot;
use crate::handoff_slot::HandoffSlot;
use crate::http_message::HttpRequest;
use crate::http_message::HttpResponse;

verus! {

/// `bevy::tasks::Task`: a task of the host's task pool. The handle keeps it
/// and hands it out to be polled; nothing is claimed of what is inside.
#[verifier::external_type_specification]
#[verifier::external_body]
#[verifier::reject_recursive_types(T)]
pub struct ExTask<T>(Task<T>);

/// The host's handle of one connection, whose requests are of type `Q` and
/// whose responses are of type `R`. The handle passes them on as they are.
#[verifier::reject_recursive_types(Q)]
#[verifier::reject_recursive_types(R)]
pub struct HttpConnectionTask<Q = HttpRequest, R = HttpResponse> {
    task: Task<Result<(), String>>,
    request: Arc<Mutex<HandoffSlot<Q>>>,
    response: Arc<Mutex<HandoffSlot<R>>>,
}

impl<Q, R> HttpConnectionTask<Q, R> {
    /// The task in which the worker runs.
    pub closed spec fn task(&self) -> Task<Result<(), String>> {
        self.task
    }

    /// The host's end of the request slot.
    pub closed spec fn request_end(&self) -> Arc<Mutex<HandoffSlot<Q>>> {
        self.request
    }

    /// The host's end of the response slot.
    pub closed spec fn response_end(&self) -> Arc<Mutex<HandoffSlot<R>>> {
        self.response
    }

    /// The handle of the connection whose worker runs in `task` and shares
    /// the two slots.
    pub fn new(
        task: Task<Result<(), String>>,
        request: Arc<Mutex<HandoffSlot<Q>>>,
        response: Arc<Mutex<HandoffSlot<R>>>,
    ) -> (handle: HttpConnectionTask<Q, R>)
        ensures
            handle.task() == task,
            handle.request_end() == request,
            handle.response_end() == response,
    {
        HttpConnectionTask { task, request, response }
    }

    /// The task, to be polled. Whatever the caller does to the task is done
    /// to the handle's task; the ends of the slots stay.
    pub fn get_mut_task(&mut self) -> (task: &mut Task<Result<(), String>>)
        ensures
            *task == old(self).task(),
            final(self).task() == *final(task),
            final(self).request_end() == old(self).request_end(),
            final(self).response_end() == old(self).response_end(),
    {
        &mut self.task
    }

    /// Puts `response` into the response slot, in place of whatever it holds.
    pub fn set_response(&mut self, response: Option<R>)
        ensures
            *final(self) == *old(self),
    {
        shared_set(&self.response, response);
    }

    /// Whether the request slot holds a request at the moment of the call.
    pub fn has_request(&self) -> (full: bool) {
        shared_has(&self.request)
    }

    /// Takes the request out of its slot and leaves the slot empty. To take
    /// from an empty slot is an error of the caller, who tests `has_request`
    /// first: the result is then the refusal `EmptySlot`, which is no answer
    /// to recover from.
    pub fn take_request(&mut self) -> (request: Result<Q, EmptySlot>)
        ensures
            *final(self) == *old(self),
    {
        shared_take(&self.request)
    }
}

} // verus!
