//! The decisions of the host's recurring steps.

use bevy_httpserver::http_systems::accept_decision;
use bevy_httpserver::http_systems::check_conntask_status;
use bevy_httpserver::http_systems::finalize_response;
use bevy_httpserver::http_systems::AcceptAction;
use bevy_httpserver::http_systems::AcceptOutcome;
use bevy_httpserver::http_systems::ConnectionStatus;
use bevy_httpserver::text::decimal;
use bevy_httpserver::HttpHeader;
use bevy_httpserver::HttpResponse;

fn pairs(headers: &[HttpHeader]) -> Vec<(&str, &str)> {
    headers.iter().map(|header| (header.name.as_str(), header.value.as_str())).collect()
}

#[test]
fn accept_launches_stops_or_aborts() {
    assert_eq!(accept_decision(AcceptOutcome::Connected), AcceptAction::Launch);
    assert_eq!(accept_decision(AcceptOutcome::WouldBlock), AcceptAction::Stop);
    assert_eq!(accept_decision(AcceptOutcome::Failed), AcceptAction::Abort);
}

#[test]
fn a_task_without_result_is_running() {
    let status = check_conntask_status(None);
    assert_eq!(status, ConnectionStatus::Running);
    assert!(!status.is_finished());
}

#[test]
fn a_task_that_ended_is_reaped() {
    let status = check_conntask_status(Some(Ok(())));
    assert_eq!(status, ConnectionStatus::Disconnected);
    assert!(status.is_finished());
    let status = check_conntask_status(Some(Err(String::from("127.0.0.1:1: 400 Bad Request"))));
    assert_eq!(status, ConnectionStatus::Crashed(String::from("127.0.0.1:1: 400 Bad Request")));
    assert!(status.is_finished());
}

#[test]
fn finalize_keeps_alive_when_asked_and_not_denied() {
    let defaults = finalize_response(true, false, &HttpResponse::new(200, b"Hello world".to_vec()));
    assert_eq!(
        pairs(&defaults),
        vec![
            ("Connection", "keep-alive"),
            ("Keep-Alive", "timeout=30, max=1000"),
            ("Content-Length", "11"),
            ("Content-Type", "text/html; charset=utf-8"),
        ]
    );
}

#[test]
fn finalize_closes_when_denied() {
    let defaults = finalize_response(true, true, &HttpResponse::new(200, Vec::new()));
    assert_eq!(
        pairs(&defaults),
        vec![
            ("Connection", "close"),
            ("Content-Length", "0"),
            ("Content-Type", "text/html; charset=utf-8"),
        ]
    );
}

#[test]
fn finalize_closes_when_not_asked() {
    for denied in [false, true] {
        let defaults = finalize_response(false, denied, &HttpResponse::new(404, vec![0; 1234567]));
        assert_eq!(
            pairs(&defaults),
            vec![
                ("Connection", "close"),
                ("Content-Length", "1234567"),
                ("Content-Type", "text/html; charset=utf-8"),
            ]
        );
    }
}

#[test]
fn decimal_of_small_and_large_numbers() {
    assert_eq!(decimal(0), "0");
    assert_eq!(decimal(9), "9");
    assert_eq!(decimal(10), "10");
    assert_eq!(decimal(404), "404");
    assert_eq!(decimal(1000), "1000");
    assert_eq!(decimal(u64::MAX), "18446744073709551615");
}

#[test]
fn finalize_leaves_the_response_and_its_headers_alone() {
    let mut response = HttpResponse::new(200, b"ok".to_vec());
    response.headers.push(HttpHeader::new("Connection", "close"));
    let before = response.clone();
    let defaults = finalize_response(true, true, &response);
    assert_eq!(response, before);
    assert_eq!(
        pairs(&defaults),
        vec![
            ("Connection", "close"),
            ("Content-Length", "2"),
            ("Content-Type", "text/html; charset=utf-8"),
        ]
    );
}
