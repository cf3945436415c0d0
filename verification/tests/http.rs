use gmail_archiver::http::{
    decide, Action, Event, Phase, RequestError, RequestExecutor, ERROR_TEXT_LIMIT,
    TOO_MANY_REQUESTS,
};
use std::time::Duration;

fn told(executor: RequestExecutor, event: Event) -> (RequestExecutor, Action) {
    executor.advance(event)
}

fn sent() -> RequestExecutor {
    let (executor, action) = told(RequestExecutor::new(), Event::Start);
    assert!(matches!(action, Action::Send));
    executor
}

#[test]
fn a_request_starts_by_sending() {
    let executor = RequestExecutor::new();
    assert!(matches!(executor.phase(), Phase::Idle));
    assert!(executor.text().is_none());
    let (executor, action) = told(executor, Event::Start);
    assert!(matches!(action, Action::Send));
    assert!(matches!(executor.phase(), Phase::AwaitingResponse));
}

#[test]
fn a_successful_answer_is_read_and_decoded() {
    let (executor, action) = told(sent(), Event::Responded(200));
    assert!(matches!(action, Action::ReadBody));
    assert!(matches!(executor.phase(), Phase::AwaitingBody));
    let (executor, action) = told(executor, Event::Body(Ok(b"{\"a\":1}".to_vec())));
    assert!(matches!(action, Action::DecodePayload));
    assert_eq!(executor.text(), Some("{\"a\":1}"));
    let (executor, action) = told(executor, Event::Payload(Ok(())));
    assert!(matches!(action, Action::Succeed));
    assert!(matches!(executor.phase(), Phase::Finished));
    assert!(executor.text().is_none());
}

#[test]
fn every_status_from_200_to_299_is_a_success() {
    for status in [200u16, 201, 204, 250, 299] {
        let (_, action) = decide(Phase::AwaitingResponse, Event::Responded(status), None);
        assert!(matches!(action, Action::ReadBody));
        let (phase, _) = decide(Phase::AwaitingResponse, Event::Responded(status), None);
        assert!(matches!(phase, Phase::AwaitingBody));
    }
    for status in [100u16, 199, 300, 301, 400, 401, 403, 404, 428, 430, 500, 503, 0, 999] {
        let (phase, action) = decide(Phase::AwaitingResponse, Event::Responded(status), None);
        assert!(matches!(action, Action::ReadBody));
        assert!(matches!(phase, Phase::AwaitingFailureBody { status: s } if s == status));
    }
}

#[test]
fn a_transport_failure_is_final_at_once() {
    let (executor, action) = told(sent(), Event::TransportFailed("connection refused".to_string()));
    assert!(matches!(action, Action::Fail(RequestError::Transport(m)) if m == "connection refused"));
    assert!(matches!(executor.phase(), Phase::Finished));
}

#[test]
fn a_rate_limited_answer_is_read_and_retried_after_a_delay() {
    assert_eq!(TOO_MANY_REQUESTS, 429);
    let (executor, action) = told(sent(), Event::Responded(429));
    assert!(matches!(action, Action::ReadRetryText));
    assert!(matches!(executor.phase(), Phase::AwaitingRetryText));
    let (executor, action) = told(executor, Event::RetryText(Ok("slow down".to_string())));
    match action {
        Action::SendAfter(delay) => {
            assert!(delay >= Duration::from_millis(250));
            assert!(delay <= Duration::from_millis(751));
        },
        _ => panic!("the first rate limit is retried"),
    }
    assert!(matches!(executor.phase(), Phase::AwaitingResponse));
    let (executor, action) = told(executor, Event::Responded(200));
    assert!(matches!(action, Action::ReadBody));
    assert!(matches!(executor.phase(), Phase::AwaitingBody));
}

#[test]
fn delays_grow_with_every_rate_limit() {
    let mut executor = sent();
    let mut delays = Vec::new();
    for _ in 0..6 {
        let (next, action) = told(executor, Event::Responded(429));
        assert!(matches!(action, Action::ReadRetryText));
        let (next, action) = told(next, Event::RetryText(Ok("slow down".to_string())));
        match action {
            Action::SendAfter(delay) => delays.push(delay),
            _ => panic!("the policy has budget left"),
        }
        executor = next;
    }
    assert!(delays[5] > delays[0]);
    assert!(delays[5] >= Duration::from_millis(1898));
    assert!(delays[5] <= Duration::from_millis(5696));
}

#[test]
fn a_granted_delay_means_another_send() {
    let delay = Duration::from_millis(1234);
    let (phase, action) =
        decide(Phase::AwaitingRetryText, Event::RetryText(Ok("busy".to_string())), Some(delay));
    assert!(matches!(action, Action::SendAfter(d) if d == delay));
    assert!(matches!(phase, Phase::AwaitingResponse));
    let (phase, action) =
        decide(Phase::AwaitingRetryText, Event::RetryText(Err("reset".to_string())), Some(delay));
    assert!(matches!(action, Action::SendAfter(d) if d == delay));
    assert!(matches!(phase, Phase::AwaitingResponse));
}

#[test]
fn a_refused_delay_ends_the_request_with_the_last_answer() {
    let (phase, action) =
        decide(Phase::AwaitingRetryText, Event::RetryText(Ok("quota exceeded".to_string())), None);
    assert!(matches!(action, Action::Fail(RequestError::RateLimited(t)) if t == "quota exceeded"));
    assert!(matches!(phase, Phase::Finished));
    let (phase, action) =
        decide(Phase::AwaitingRetryText, Event::RetryText(Err("body lost".to_string())), None);
    assert!(matches!(action, Action::Fail(RequestError::Transport(m)) if m == "body lost"));
    assert!(matches!(phase, Phase::Finished));
}

#[test]
fn an_endpoint_that_always_limits_ends_in_failure() {
    let granted = [
        Some(Duration::from_millis(500)),
        Some(Duration::from_millis(750)),
        Some(Duration::from_millis(1125)),
        None,
    ];
    let mut phase = Phase::Idle;
    let (next, action) = decide(phase, Event::Start, None);
    assert!(matches!(action, Action::Send));
    phase = next;
    let mut sends = 1;
    let mut outcome = None;
    for (round, delay) in granted.iter().enumerate() {
        let (next, action) = decide(phase, Event::Responded(429), None);
        assert!(matches!(action, Action::ReadRetryText));
        let (next, action) = decide(next, Event::RetryText(Ok(format!("limit {}", round))), *delay);
        phase = next;
        match action {
            Action::SendAfter(_) => sends += 1,
            Action::Fail(e) => {
                outcome = Some(e);
                break;
            },
            _ => panic!("a rate limit is retried or fails"),
        }
    }
    assert_eq!(sends, 4);
    assert!(matches!(outcome, Some(RequestError::RateLimited(t)) if t == "limit 3"));
    assert!(matches!(phase, Phase::Finished));
}

#[test]
fn a_failure_with_a_structured_error_carries_its_detail() {
    let (executor, action) = told(sent(), Event::Responded(404));
    assert!(matches!(action, Action::ReadBody));
    let (executor, action) = told(executor, Event::Body(Ok(b"{\"error\":\"gone\"}".to_vec())));
    assert!(matches!(action, Action::DecodeRemoteError));
    assert_eq!(executor.text(), Some("{\"error\":\"gone\"}"));
    assert!(matches!(executor.phase(), Phase::AwaitingRemoteError { status: 404, .. }));
    let (executor, action) = told(executor, Event::RemoteError(Some("gone for good".to_string())));
    assert!(matches!(
        action,
        Action::Fail(RequestError::Remote { status: 404, detail }) if detail == "gone for good"
    ));
    assert!(matches!(executor.phase(), Phase::Finished));
}

#[test]
fn a_failure_without_a_structured_error_carries_status_and_text() {
    let (executor, _) = told(sent(), Event::Responded(500));
    let (executor, _) = told(executor, Event::Body(Ok(b"internal error".to_vec())));
    let (executor, action) = told(executor, Event::RemoteError(None));
    assert!(matches!(
        action,
        Action::Fail(RequestError::StatusText { status: 500, text }) if text == "internal error"
    ));
    assert!(matches!(executor.phase(), Phase::Finished));
}

#[test]
fn the_text_of_a_failure_is_cut_at_the_limit() {
    assert_eq!(ERROR_TEXT_LIMIT, 4096);
    let long: String = "é".repeat(ERROR_TEXT_LIMIT + 10);
    let (phase, _) = decide(Phase::AwaitingFailureBody { status: 502 }, Event::Body(Ok(long.clone().into_bytes())), None);
    let (_, action) = decide(phase, Event::RemoteError(None), None);
    match action {
        Action::Fail(RequestError::StatusText { status, text }) => {
            assert_eq!(status, 502);
            assert_eq!(text.chars().count(), ERROR_TEXT_LIMIT);
            assert_eq!(text, "é".repeat(ERROR_TEXT_LIMIT));
        },
        _ => panic!("a failure without a structured error carries text"),
    }
    let exact: String = "x".repeat(ERROR_TEXT_LIMIT);
    let (phase, _) = decide(Phase::AwaitingFailureBody { status: 502 }, Event::Body(Ok(exact.clone().into_bytes())), None);
    let (_, action) = decide(phase, Event::RemoteError(None), None);
    assert!(matches!(action, Action::Fail(RequestError::StatusText { text, .. }) if text == exact));
    let (phase, _) = decide(Phase::AwaitingFailureBody { status: 502 }, Event::Body(Ok(Vec::new())), None);
    let (_, action) = decide(phase, Event::RemoteError(None), None);
    assert!(matches!(action, Action::Fail(RequestError::StatusText { text, .. }) if text.is_empty()));
}

#[test]
fn a_structured_error_is_not_cut() {
    let long: String = "d".repeat(ERROR_TEXT_LIMIT * 2);
    let (phase, _) = decide(Phase::AwaitingFailureBody { status: 400 }, Event::Body(Ok(b"{}".to_vec())), None);
    let (_, action) = decide(phase, Event::RemoteError(Some(long.clone())), None);
    assert!(matches!(action, Action::Fail(RequestError::Remote { detail, .. }) if detail == long));
}

#[test]
fn a_failure_with_an_unreadable_body_carries_the_status() {
    let (executor, _) = told(sent(), Event::Responded(503));
    let (executor, action) = told(executor, Event::Body(Err("reset by peer".to_string())));
    assert!(matches!(action, Action::Fail(RequestError::Status { status: 503 })));
    assert!(matches!(executor.phase(), Phase::Finished));
}

#[test]
fn a_failure_with_a_binary_body_carries_the_bytes() {
    let (executor, _) = told(sent(), Event::Responded(400));
    let (executor, action) = told(executor, Event::Body(Ok(vec![0xff, 0xfe, 0x00])));
    assert!(matches!(
        action,
        Action::Fail(RequestError::StatusBinary { status: 400, payload }) if payload == vec![0xff, 0xfe, 0x00]
    ));
    assert!(matches!(executor.phase(), Phase::Finished));
}

#[test]
fn a_success_with_an_unreadable_body_fails() {
    let (executor, _) = told(sent(), Event::Responded(200));
    let (executor, action) = told(executor, Event::Body(Err("truncated".to_string())));
    assert!(matches!(action, Action::Fail(RequestError::EmptyBody(m)) if m == "truncated"));
    assert!(matches!(executor.phase(), Phase::Finished));
}

#[test]
fn a_success_with_a_binary_body_fails_with_the_bytes() {
    let (executor, _) = told(sent(), Event::Responded(200));
    let (executor, action) = told(executor, Event::Body(Ok(vec![b'a', 0x80])));
    assert!(matches!(action, Action::Fail(RequestError::BodyNotText(b)) if b == vec![b'a', 0x80]));
    assert!(matches!(executor.phase(), Phase::Finished));
}

#[test]
fn a_payload_of_the_wrong_shape_fails_with_the_payload() {
    let (executor, _) = told(sent(), Event::Responded(200));
    let body = "x".repeat(ERROR_TEXT_LIMIT + 100);
    let (executor, _) = told(executor, Event::Body(Ok(body.clone().into_bytes())));
    let (executor, action) = told(executor, Event::Payload(Err("missing field `id`".to_string())));
    assert!(matches!(
        action,
        Action::Fail(RequestError::UnexpectedPayload { text, reason })
            if text == body && reason == "missing field `id`"
    ));
    assert!(matches!(executor.phase(), Phase::Finished));
}

#[test]
fn multibyte_text_is_text() {
    let (phase, action) = decide(Phase::AwaitingBody, Event::Body(Ok("héllo ✓".as_bytes().to_vec())), None);
    assert!(matches!(action, Action::DecodePayload));
    assert!(matches!(phase, Phase::AwaitingPayload { text } if text == "héllo ✓"));
}

#[test]
fn what_is_not_awaited_ends_the_request() {
    let (executor, action) = told(RequestExecutor::new(), Event::Responded(200));
    assert!(matches!(action, Action::Fail(RequestError::OutOfOrder)));
    assert!(matches!(executor.phase(), Phase::Finished));
    let (executor, action) = told(sent(), Event::Start);
    assert!(matches!(action, Action::Fail(RequestError::OutOfOrder)));
    assert!(matches!(executor.phase(), Phase::Finished));
    let (_, action) = told(sent(), Event::Payload(Ok(())));
    assert!(matches!(action, Action::Fail(RequestError::OutOfOrder)));
    let (_, action) = decide(Phase::AwaitingBody, Event::RetryText(Ok(String::new())), None);
    assert!(matches!(action, Action::Fail(RequestError::OutOfOrder)));
    let (_, action) = decide(
        Phase::AwaitingBody,
        Event::RetryText(Ok(String::new())),
        Some(Duration::from_secs(1)),
    );
    assert!(matches!(action, Action::Fail(RequestError::OutOfOrder)));
}

#[test]
fn a_finished_request_stays_finished() {
    let (executor, _) = told(sent(), Event::TransportFailed("down".to_string()));
    let (executor, action) = told(executor, Event::Start);
    assert!(matches!(action, Action::Fail(RequestError::OutOfOrder)));
    let (executor, action) = told(executor, Event::Responded(200));
    assert!(matches!(action, Action::Fail(RequestError::OutOfOrder)));
    let (executor, action) = told(executor, Event::RetryText(Ok("again".to_string())));
    assert!(matches!(action, Action::Fail(RequestError::OutOfOrder)));
    assert!(matches!(executor.phase(), Phase::Finished));
}

#[test]
fn a_delay_counts_only_after_a_rate_limit() {
    let delay = Some(Duration::from_secs(9));
    let (phase, action) = decide(Phase::Idle, Event::Start, delay);
    assert!(matches!(action, Action::Send));
    assert!(matches!(phase, Phase::AwaitingResponse));
    let (_, action) = decide(Phase::AwaitingResponse, Event::TransportFailed("x".to_string()), delay);
    assert!(matches!(action, Action::Fail(RequestError::Transport(_))));
    let (_, action) = decide(Phase::AwaitingResponse, Event::Responded(500), delay);
    assert!(matches!(action, Action::ReadBody));
    let (_, action) = decide(Phase::AwaitingFailureBody { status: 500 }, Event::Body(Err("x".to_string())), delay);
    assert!(matches!(action, Action::Fail(RequestError::Status { status: 500 })));
}
