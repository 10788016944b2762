use github_webhook::event::{PullRequestDetails, Repository, WebhookEvent};
use github_webhook::handler::{HttpStatus, RequestAction, RequestInput, RequestState};
use hmac::{Hmac, Mac};
use sha2::Sha256;

const PAYLOAD: &str = r#"{"action":"opened","number":1,"pull_request":{"title":"Test PR","html_url":"https://github.com/user/repo/pull/1"}}"#;

fn sign(secret: &str, body: &[u8]) -> String {
    let mut mac = Hmac::<Sha256>::new_from_slice(secret.as_bytes()).expect("HMAC initialization failed");
    mac.update(body);
    format!("sha256={}", hex::encode(mac.finalize().into_bytes()))
}

fn event(action: &str, number: i64, with_pr: bool, repo: Option<&str>) -> WebhookEvent {
    WebhookEvent {
        action: action.to_string(),
        number,
        pull_request: if with_pr {
            Some(PullRequestDetails {
                title: "Test PR".to_string(),
                html_url: "https://github.com/user/repo/pull/1".to_string(),
                extra: vec![("state".to_string(), "\"open\"".to_string())],
            })
        } else {
            None
        },
        repository: repo.map(|r| Repository { full_name: r.to_string(), extra: Vec::new() }),
        extra: Vec::new(),
    }
}

/// Drives a request up to the point where its body has been checked.
fn through_body(secret: Option<&str>, header: Option<String>, body: &[u8]) -> (RequestState, RequestAction) {
    let (state, action) = RequestState::start();
    assert!(matches!(action, RequestAction::ReadSecret));
    let (state, action) = state.step(RequestInput::Secret(secret.map(|s| s.to_string())));
    if !matches!(action, RequestAction::ReadSignatureHeader) {
        return (state, action);
    }
    let (state, action) = state.step(RequestInput::SignatureHeader(header));
    if !matches!(action, RequestAction::ReadBody) {
        return (state, action);
    }
    state.step(RequestInput::Body(Some(body.to_vec())))
}

fn status_of(action: &RequestAction) -> Option<u16> {
    match action {
        RequestAction::Respond { response } => Some(response.status.code()),
        _ => None,
    }
}

#[test]
fn test_valid_webhook() {
    let signature = sign("test_secret", PAYLOAD.as_bytes());
    let (state, action) = through_body(Some("test_secret"), Some(signature), PAYLOAD.as_bytes());
    assert!(matches!(action, RequestAction::DecodePayload));
    let (state, action) = state.step(RequestInput::Payload(Some(event("opened", 1, true, None))));
    match &action {
        RequestAction::RunScript { args } => {
            assert_eq!(args, &vec!["1".to_string(), "Test PR".to_string(), "https://github.com/user/repo/pull/1".to_string()]);
        }
        other => panic!("unexpected action {:?}", other),
    }
    let (_, action) = state.step(RequestInput::ScriptExited { success: true, stdout: b"ok".to_vec(), stderr: Vec::new() });
    assert_eq!(status_of(&action), Some(200));
}

#[test]
fn test_invalid_signature() {
    let (_, action) = through_body(Some("test_secret"), Some("sha256=invalid".to_string()), PAYLOAD.as_bytes());
    assert_eq!(status_of(&action), Some(403));
}

#[test]
fn test_missing_signature() {
    let (_, action) = through_body(Some("test_secret"), None, PAYLOAD.as_bytes());
    assert_eq!(status_of(&action), Some(400));
}

#[test]
fn missing_signature_is_rejected_for_any_body() {
    for body in [&b""[..], b"not json", PAYLOAD.as_bytes()] {
        let (state, action) = through_body(Some("s"), None, body);
        assert_eq!(status_of(&action), Some(400));
        assert!(matches!(state, RequestState::Finished));
    }
}

#[test]
fn missing_secret_is_internal_error() {
    let (_, action) = through_body(None, Some(sign("x", b"{}")), b"{}");
    assert_eq!(status_of(&action), Some(500));
}

#[test]
fn unreadable_body_is_bad_request() {
    let (state, _) = RequestState::start();
    let (state, _) = state.step(RequestInput::Secret(Some("k".to_string())));
    let (state, _) = state.step(RequestInput::SignatureHeader(Some("sha256=00".to_string())));
    let (_, action) = state.step(RequestInput::Body(None));
    assert_eq!(status_of(&action), Some(400));
}

#[test]
fn opened_with_script_ok_replies_success_without_script_text() {
    let signature = sign("k", PAYLOAD.as_bytes());
    let (state, _) = through_body(Some("k"), Some(signature), PAYLOAD.as_bytes());
    let (state, _) = state.step(RequestInput::Payload(Some(event("opened", 7, true, Some("owner/repo")))));
    let (state, action) = state.step(RequestInput::ScriptExited { success: true, stdout: b"ok".to_vec(), stderr: Vec::new() });
    match &action {
        RequestAction::PostComment { number, comment, repository } => {
            assert_eq!(*number, 7);
            assert_eq!(comment, "Script execution results:\n```\nok\n```");
            assert_eq!(repository, "owner/repo");
        }
        other => panic!("unexpected action {:?}", other),
    }
    let (state, action) = state.step(RequestInput::CommentAttempted);
    match &action {
        RequestAction::Respond { response } => {
            assert_eq!(response.status, HttpStatus::Success);
            let body = response.body.as_ref().expect("a success body");
            assert_eq!(body.status, "success");
            assert_eq!(body.message, "Webhook processed successfully");
        }
        other => panic!("unexpected action {:?}", other),
    }
    let (_, action) = state.step(RequestInput::CommentAttempted);
    assert!(matches!(action, RequestAction::Nothing));
}

#[test]
fn closed_action_skips_script() {
    let signature = sign("k", b"{}");
    let (state, _) = through_body(Some("k"), Some(signature), b"{}");
    let (state, action) = state.step(RequestInput::Payload(Some(event("closed", 1, true, Some("o/r")))));
    assert_eq!(status_of(&action), Some(200));
    match action {
        RequestAction::Respond { response } => assert!(response.body.is_none()),
        other => panic!("unexpected action {:?}", other),
    }
    assert!(matches!(state, RequestState::Finished));
}

#[test]
fn synchronize_runs_script() {
    let (state, _) = through_body(Some("k"), Some(sign("k", b"x")), b"x");
    let (_, action) = state.step(RequestInput::Payload(Some(event("synchronize", 3, true, None))));
    assert!(matches!(action, RequestAction::RunScript { .. }));
}

#[test]
fn opened_without_pull_request_is_ignored() {
    let (state, _) = through_body(Some("k"), Some(sign("k", b"x")), b"x");
    let (_, action) = state.step(RequestInput::Payload(Some(event("opened", 3, false, None))));
    assert_eq!(status_of(&action), Some(200));
}

#[test]
fn failing_script_gives_500_and_no_comment() {
    let (state, _) = through_body(Some("k"), Some(sign("k", b"x")), b"x");
    let (state, _) = state.step(RequestInput::Payload(Some(event("opened", 3, true, Some("o/r")))));
    let (state, action) = state.step(RequestInput::ScriptExited { success: false, stdout: b"partial".to_vec(), stderr: b"boom".to_vec() });
    assert_eq!(status_of(&action), Some(500));
    let (_, action) = state.step(RequestInput::CommentAttempted);
    assert!(matches!(action, RequestAction::Nothing));
}

#[test]
fn script_that_cannot_start_gives_500() {
    let (state, _) = through_body(Some("k"), Some(sign("k", b"x")), b"x");
    let (state, _) = state.step(RequestInput::Payload(Some(event("opened", 3, true, None))));
    let (_, action) = state.step(RequestInput::ScriptNotStarted);
    assert_eq!(status_of(&action), Some(500));
}

#[test]
fn malformed_payload_is_bad_request() {
    let body = b"{not json";
    let (state, action) = through_body(Some("k"), Some(sign("k", body)), body);
    assert!(matches!(action, RequestAction::DecodePayload));
    let (_, action) = state.step(RequestInput::Payload(None));
    assert_eq!(status_of(&action), Some(400));
}

#[test]
fn out_of_order_input_is_internal_error() {
    let (state, _) = RequestState::start();
    let (_, action) = state.step(RequestInput::CommentAttempted);
    assert_eq!(status_of(&action), Some(500));
}

#[test]
fn status_codes() {
    assert_eq!(HttpStatus::Success.code(), 200);
    assert_eq!(HttpStatus::BadRequest.code(), 400);
    assert_eq!(HttpStatus::Forbidden.code(), 403);
    assert_eq!(HttpStatus::InternalServerError.code(), 500);
}
