//! The connection handle: its ends of the two slots.

use bevy::tasks::AsyncComputeTaskPool;
use bevy::tasks::Task;
use bevy::tasks::TaskPool;
use bevy_httpserver::EmptySlot;
use bevy_httpserver::HandoffSlot;
use bevy_httpserver::HttpConnectionTask;
use bevy_httpserver::HttpRequest;
use bevy_httpserver::HttpResponse;
use std::sync::Arc;
use std::sync::Mutex;

fn empty<T>() -> Arc<Mutex<HandoffSlot<T>>> {
    Arc::new(Mutex::new(HandoffSlot::new()))
}

fn holding<T>(value: T) -> Arc<Mutex<HandoffSlot<T>>> {
    let mut slot = HandoffSlot::new();
    slot.set(Some(value));
    Arc::new(Mutex::new(slot))
}

fn finished_task() -> Task<Result<(), String>> {
    let pool = AsyncComputeTaskPool::init(|| TaskPool::new());
    pool.spawn(async move { return Ok(()); })
}

#[test]
fn http_connection_task_new() {
    let task: Task<Result<(), String>> = finished_task();
    let _conntask: HttpConnectionTask = HttpConnectionTask::new(task, empty(), empty());
    assert!(true);
}

#[test]
fn get_mut_task() {
    let task: Task<Result<(), String>> = finished_task();
    let mut conntask: HttpConnectionTask = HttpConnectionTask::new(task, empty(), empty());
    let _: &mut Task<Result<(), String>> = conntask.get_mut_task();
}

#[test]
fn has_request_none() {
    let task: Task<Result<(), String>> = finished_task();
    let conntask: HttpConnectionTask = HttpConnectionTask::new(task, empty(), empty());
    assert_eq!(conntask.has_request(), false);
}

#[test]
fn has_request_some() {
    let task: Task<Result<(), String>> = finished_task();
    let request = HttpRequest::new("GET", "/");
    let conntask: HttpConnectionTask = HttpConnectionTask::new(task, holding(request), empty());
    assert_eq!(conntask.has_request(), true);
}

#[test]
#[should_panic]
fn take_request_none() {
    let task: Task<Result<(), String>> = finished_task();
    let mut conntask: HttpConnectionTask = HttpConnectionTask::new(task, empty(), empty());
    let _ = conntask
        .take_request()
        .expect("can not take_request() because request is None; use has_request() first");
}

#[test]
fn take_request_some() {
    let task: Task<Result<(), String>> = finished_task();
    let request = HttpRequest::new("GET", "/");
    let arc_req = holding(request);
    let mut conntask: HttpConnectionTask = HttpConnectionTask::new(task, arc_req.clone(), empty());
    let _request: HttpRequest = conntask.take_request().unwrap();
}

#[test]
fn request_empty_after_take() {
    let task: Task<Result<(), String>> = finished_task();
    let request = HttpRequest::new("GET", "/");
    let arc_req = holding(request);
    let mut conntask: HttpConnectionTask = HttpConnectionTask::new(task, arc_req.clone(), empty());
    let _request: HttpRequest = conntask.take_request().unwrap();
    assert_eq!(arc_req.lock().unwrap().has(), false);
    assert_eq!(conntask.has_request(), false);
}

#[test]
fn set_response() {
    let task: Task<Result<(), String>> = finished_task();
    let response = HttpResponse::new(200, Vec::new());
    let arc_res = empty();
    let mut conntask: HttpConnectionTask = HttpConnectionTask::new(task, empty(), arc_res.clone());
    conntask.set_response(Some(response));
    assert_eq!(arc_res.lock().unwrap().has(), true);
}

#[test]
fn take_request_gives_what_the_worker_published() {
    let task: Task<Result<(), String>> = finished_task();
    let arc_req = empty();
    let mut conntask: HttpConnectionTask = HttpConnectionTask::new(task, arc_req.clone(), empty());
    assert_eq!(conntask.take_request(), Err(EmptySlot));
    arc_req.lock().unwrap().set(Some(HttpRequest::new("GET", "/foo")));
    assert_eq!(conntask.take_request(), Ok(HttpRequest::new("GET", "/foo")));
    assert_eq!(conntask.take_request(), Err(EmptySlot));
}

#[test]
fn set_response_overwrites_and_clears() {
    let task: Task<Result<(), String>> = finished_task();
    let arc_res = empty();
    let mut conntask: HttpConnectionTask = HttpConnectionTask::new(task, empty(), arc_res.clone());
    conntask.set_response(Some(HttpResponse::new(200, Vec::new())));
    conntask.set_response(Some(HttpResponse::new(204, Vec::new())));
    assert_eq!(arc_res.lock().unwrap().take().status, 204);
    conntask.set_response(Some(HttpResponse::new(200, Vec::new())));
    conntask.set_response(None);
    assert_eq!(arc_res.lock().unwrap().has(), false);
}
