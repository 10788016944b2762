//! The parts of a pull-request webhook payload that the handler reads, and
//! the body of its success response.
use vstd::prelude::*;

verus! {

/// The `pull_request` object of a payload.
#[derive(Debug)]
pub struct PullRequestDetails {
    pub title: String,
    pub html_url: String,
    /// Fields not read here, by name, each with its JSON text.
    pub extra: Vec<(String, String)>,
}

/// The `repository` object of a payload.
#[derive(Debug)]
pub struct Repository {
    /// `owner/name`.
    pub full_name: String,
    /// Fields not read here, by name, each with its JSON text.
    pub extra: Vec<(String, String)>,
}

/// A decoded pull-request webhook payload. `action` is empty and `number`
/// zero where the payload leaves them out; either object may be absent.
#[derive(Debug)]
pub struct WebhookEvent {
    pub action: String,
    pub number: i64,
    pub pull_request: Option<PullRequestDetails>,
    pub repository: Option<Repository>,
    /// Top-level fields not read here, by name, each with its JSON text.
    pub extra: Vec<(String, String)>,
}

/// The JSON body of a successful response.
#[derive(Debug)]
pub struct WebhookResponse {
    pub message: String,
    pub status: String,
}

} // verus!
